//! The values that cross the boundary, and the only functions that make and
//! release them.
//!
//! Every value owns its buffers. A null pointer on the foreign side is `None`
//! here, and a buffer is the bytes before its terminator.

use crate::text::{
    has_terminator, has_zero_byte, lemma_encoded_terminator, lemma_wire_bytes, text_from_utf8,
    utf8_error_text, wire_bytes, wire_text,
};
use vstd::prelude::*;
use vstd::string::*;
use vstd::utf8::*;

verus! {

/// Code of an operation that failed at the protocol or transport layer, or timed out.
pub const MX_ERROR_OPERATION: i32 = 1;

/// Code of a required pointer argument that was null.
pub const MX_ERROR_NULL_ARGUMENT: i32 = 2;

/// Code of a required text argument that was not validly encoded.
pub const MX_ERROR_ENCODING: i32 = 3;

/// A text buffer handed to the foreign caller.
pub struct mx_string_t {
    /// The bytes before the terminator; `None` is the null pointer.
    pub data: Option<Vec<u8>>,
    /// The number of bytes before the terminator.
    pub len: usize,
}

impl View for mx_string_t {
    type V = Option<Seq<u8>>;

    open spec fn view(&self) -> Option<Seq<u8>> {
        match self.data {
            Some(bytes) => Some(bytes@),
            None => None,
        }
    }
}

impl mx_string_t {
    /// The value is either the null sentinel with length zero, or a buffer
    /// free of zero bytes whose length is recorded.
    pub open spec fn wf(&self) -> bool {
        match self.data {
            Some(bytes) => self.len == bytes@.len() && !bytes@.contains(0u8),
            None => self.len == 0,
        }
    }
}

/// A failure descriptor.
pub struct mx_error_t {
    pub code: i32,
    pub message: mx_string_t,
}

/// What an `mx_error_t` holds.
pub struct ErrorView {
    pub code: int,
    pub message: Option<Seq<u8>>,
}

impl View for mx_error_t {
    type V = ErrorView;

    open spec fn view(&self) -> ErrorView {
        ErrorView { code: self.code as int, message: self.message@ }
    }
}

/// The outcome of an operation.
pub struct mx_result_t {
    /// 1 on success, 0 on failure.
    pub ok: i32,
    /// Zero-valued on success.
    pub error: mx_error_t,
}

/// What an `mx_result_t` holds.
pub struct ResultView {
    pub ok: int,
    pub error: ErrorView,
}

impl View for mx_result_t {
    type V = ResultView;

    open spec fn view(&self) -> ResultView {
        ResultView { ok: self.ok as int, error: self.error@ }
    }
}

impl mx_result_t {
    pub open spec fn wf(&self) -> bool {
        self.error.message.wf()
    }
}

/// The list of room identifiers handed to the foreign caller.
pub struct mx_room_list_t {
    /// The array of identifiers; `None` is the null pointer.
    pub room_ids: Option<Vec<mx_string_t>>,
    /// The number of identifiers in the array.
    pub count: usize,
}

/// What each string of `items` holds, in order.
pub open spec fn strings_view(items: Seq<mx_string_t>) -> Seq<Option<Seq<u8>>> {
    Seq::new(items.len(), |i: int| items[i]@)
}

impl View for mx_room_list_t {
    type V = Option<Seq<Option<Seq<u8>>>>;

    open spec fn view(&self) -> Option<Seq<Option<Seq<u8>>>> {
        match self.room_ids {
            Some(items) => Some(strings_view(items@)),
            None => None,
        }
    }
}

impl mx_room_list_t {
    /// The value is either the null sentinel with count zero, or an array
    /// that is not empty, of well-formed strings, whose length is recorded.
    pub open spec fn wf(&self) -> bool {
        match self.room_ids {
            Some(items) => {
                &&& items@.len() > 0
                &&& self.count == items@.len()
                &&& forall|i: int| 0 <= i < items@.len() ==> (#[trigger] items@[i]).wf()
            },
            None => self.count == 0,
        }
    }
}

/// A failure inside the bridge, before it is put on the wire.
pub struct BridgeError {
    pub code: i32,
    pub message: String,
}

/// What a `BridgeError` holds.
pub struct BridgeErrorView {
    pub code: int,
    pub message: Seq<char>,
}

impl View for BridgeError {
    type V = BridgeErrorView;

    open spec fn view(&self) -> BridgeErrorView {
        BridgeErrorView { code: self.code as int, message: self.message@ }
    }
}

/// The successful result: flag 1, code 0, null message.
pub open spec fn ok_result() -> ResultView {
    ResultView { ok: 1, error: ErrorView { code: 0, message: None } }
}

/// The failed result that reports `error`.
pub open spec fn error_result(error: BridgeErrorView) -> ResultView {
    ResultView {
        ok: 0,
        error: ErrorView { code: error.code, message: Some(wire_bytes(error.message)) },
    }
}

/// The null string: no buffer, length zero.
pub fn null_string() -> (s: mx_string_t)
    ensures
        s@ is None,
        s.len == 0,
        s.wf(),
{
    mx_string_t { data: None, len: 0 }
}

/// Puts `value` into a buffer of its own. A text that holds the terminator
/// character cannot be carried: the fixed diagnostic goes in its place.
pub fn make_string(value: String) -> (s: mx_string_t)
    ensures
        s@ == Some(wire_bytes(value@)),
        s.len == wire_bytes(value@).len(),
        s.wf(),
        !has_terminator(value@) ==> s@ == Some(encode_utf8(value@)),
{
    let bytes = value.as_str().as_bytes_vec();
    proof {
        lemma_encoded_terminator(value@);
        lemma_wire_bytes(value@);
    }
    if has_zero_byte(bytes.as_slice()) {
        let bytes = "ffi string contains interior null".as_bytes_vec();
        mx_string_t { len: bytes.len(), data: Some(bytes) }
    } else {
        mx_string_t { len: bytes.len(), data: Some(bytes) }
    }
}

/// The successful result.
pub fn make_ok_result() -> (r: mx_result_t)
    ensures
        r@ == ok_result(),
        r.wf(),
{
    mx_result_t { ok: 1, error: mx_error_t { code: 0, message: null_string() } }
}

/// The failed result that reports `error`.
pub fn make_error_result(error: BridgeError) -> (r: mx_result_t)
    ensures
        r@ == error_result(error@),
        r.wf(),
{
    mx_result_t { ok: 0, error: mx_error_t { code: error.code, message: make_string(error.message) } }
}

/// Puts `room_ids` on the wire. An empty input gives the null sentinel,
/// never an empty array.
pub fn make_room_list(room_ids: Vec<mx_string_t>) -> (list: mx_room_list_t)
    ensures
        room_ids@.len() == 0 ==> list@ is None,
        room_ids@.len() > 0 ==> list.room_ids == Some(room_ids),
        list.count == room_ids@.len(),
        (forall|i: int| 0 <= i < room_ids@.len() ==> (#[trigger] room_ids@[i]).wf())
            ==> list.wf(),
{
    if room_ids.is_empty() {
        return mx_room_list_t { room_ids: None, count: 0 };
    }
    mx_room_list_t { count: room_ids.len(), room_ids: Some(room_ids) }
}

/// The number of buffers among `items`: the strings that are not null.
pub open spec fn buffers(items: Seq<Option<Seq<u8>>>) -> nat
    decreases items.len(),
{
    if items.len() == 0 {
        0
    } else {
        buffers(items.drop_last()) + if items.last() is Some {
            1nat
        } else {
            0nat
        }
    }
}

/// Where no string of `items` is null, there is one buffer for each.
pub proof fn lemma_buffers_of_owned(items: Seq<Option<Seq<u8>>>)
    requires
        forall|i: int| 0 <= i < items.len() ==> items[i] is Some,
    ensures
        buffers(items) == items.len(),
    decreases items.len(),
{
    if items.len() > 0 {
        lemma_buffers_of_owned(items.drop_last());
    }
}

/// Releases the buffer of `value` and tells whether there was one: the null
/// string releases nothing.
pub fn mx_string_free(value: mx_string_t) -> (released: bool)
    ensures
        released == value@ is Some,
{
    match value.data {
        Some(_) => true,
        None => false,
    }
}

/// Releases the message that `result` embeds and tells whether there was
/// one: a successful result releases nothing.
pub fn mx_result_free(result: mx_result_t) -> (released: bool)
    ensures
        released == result@.error.message is Some,
{
    mx_string_free(result.error.message)
}

/// Releases every string of `rooms`, then the array. The null sentinel
/// releases nothing and gives `None`; an array gives the number of string
/// buffers that went with it.
pub fn mx_room_list_free(rooms: mx_room_list_t) -> (released: Option<usize>)
    ensures
        rooms@ is None ==> released is None,
        rooms@ matches Some(items) ==> (released matches Some(count) && count == buffers(items)),
{
    let items = match rooms.room_ids {
        Some(items) => items,
        None => {
            return None;
        },
    };
    let ghost held = strings_view(items@);
    let len = items.len();
    let mut count: usize = 0;
    for room_id in it: items
        invariant
            held == strings_view(it.seq()),
            held.len() == len,
            count == buffers(held.take(it.index() as int)),
            count <= it.index() <= held.len(),
    {
        proof {
            let k = it.index() as int;
            assert(held.take(k + 1).drop_last() =~= held.take(k));
            assert(held.take(k + 1).last() == room_id@);
        }
        if mx_string_free(room_id) {
            count += 1;
        }
    }
    proof {
        assert(held.take(held.len() as int) =~= held);
    }
    Some(count)
}

/// The bytes behind a foreign text pointer: `None` for the null pointer,
/// else the bytes before the terminator.
pub open spec fn foreign_bytes(value: Option<&[u8]>) -> Option<Seq<u8>> {
    match value {
        Some(bytes) => Some(bytes@),
        None => None,
    }
}

/// The error for a required argument named `label` that was null.
pub open spec fn null_argument(label: Seq<char>) -> BridgeErrorView {
    BridgeErrorView { code: 2, message: label + " is null"@ }
}

/// The error for an argument named `label` whose `bytes` are not UTF-8.
pub open spec fn invalid_encoding(label: Seq<char>, bytes: Seq<u8>) -> BridgeErrorView {
    BridgeErrorView {
        code: 3,
        message: label + " is not valid utf-8: "@ + utf8_error_text(bytes),
    }
}

/// What decoding the foreign text `value`, an argument named `label`, gives.
pub open spec fn decoded(value: Option<Seq<u8>>, label: Seq<char>) -> Result<
    Seq<char>,
    BridgeErrorView,
> {
    match value {
        None => Err(null_argument(label)),
        Some(bytes) => if valid_utf8(bytes) {
            Ok(decode_utf8(bytes))
        } else {
            Err(invalid_encoding(label, bytes))
        },
    }
}

/// What a decoding result holds.
pub open spec fn decoding_view(r: Result<String, BridgeError>) -> Result<
    Seq<char>,
    BridgeErrorView,
> {
    match r {
        Ok(text) => Ok(text@),
        Err(error) => Err(error@),
    }
}

/// Decodes the foreign text `value`, an argument named `label`.
///
/// A null pointer is an argument error, bytes that are not UTF-8 are an
/// encoding error, and every other value decodes to its text.
pub fn c_str_to_string(value: Option<&[u8]>, label: &str) -> (r: Result<String, BridgeError>)
    ensures
        decoding_view(r) == decoded(foreign_bytes(value), label@),
        r is Ok <==> (value matches Some(bytes) && valid_utf8(bytes@)),
        r matches Err(error) ==> error.code == (if value is None {
            MX_ERROR_NULL_ARGUMENT
        } else {
            MX_ERROR_ENCODING
        }),
{
    let bytes = match value {
        Some(bytes) => bytes,
        None => {
            let mut message = String::from_str(label);
            message.append(" is null");
            return Err(BridgeError { code: MX_ERROR_NULL_ARGUMENT, message });
        },
    };
    match text_from_utf8(bytes) {
        Ok(text) => Ok(text.to_owned()),
        Err(detail) => {
            let mut message = String::from_str(label);
            message.append(" is not valid utf-8: ");
            message.append(detail.as_str());
            Err(BridgeError { code: MX_ERROR_ENCODING, message })
        },
    }
}

/// Whatever text goes into a buffer, decoding the buffer succeeds and gives
/// the text that crossed: the text itself, or the diagnostic put in its place.
pub proof fn lemma_wire_bytes_decode(text: Seq<char>, label: Seq<char>)
    ensures
        decoded(Some(wire_bytes(text)), label) == Ok::<Seq<char>, BridgeErrorView>(
            wire_text(text),
        ),
{
    broadcast use {encode_utf8_valid_utf8, encode_utf8_decode_utf8};

}

/// Round trip: a text free of the terminator character, put into a buffer
/// and decoded back, is the text it was.
pub proof fn lemma_string_round_trip(text: Seq<char>, label: Seq<char>)
    requires
        !has_terminator(text),
    ensures
        decoded(Some(wire_bytes(text)), label) == Ok::<Seq<char>, BridgeErrorView>(text),
{
    lemma_wire_bytes_decode(text, label);
}

} // verus!
