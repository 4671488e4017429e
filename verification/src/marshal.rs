//! Text on its way across the native boundary.
//!
//! The runtime speaks in NUL-terminated byte strings. Text that goes in is
//! checked and terminated here before anything is handed to the runtime; text
//! that comes back in a caller-allocated buffer is cut at the first NUL and
//! never read beyond the buffer.

use vstd::prelude::*;
use vstd::string::StringSliceAdditionalSpecFns;
use vstd::utf8::{decode_utf8, valid_utf8};

verus! {

/// Number of bytes that precede the first NUL of `bytes`; all of them where
/// `bytes` holds no NUL.
pub open spec fn text_len(bytes: Seq<u8>) -> int
    decreases bytes.len(),
{
    if bytes.len() == 0 || bytes.first() == 0 {
        0
    } else {
        1 + text_len(bytes.drop_first())
    }
}

/// The bytes of `bytes` that precede its first NUL.
pub open spec fn text_of(bytes: Seq<u8>) -> Seq<u8> {
    bytes.take(text_len(bytes))
}

/// Whether some byte of `bytes` is NUL.
pub open spec fn has_nul(bytes: Seq<u8>) -> bool {
    exists|i: int| 0 <= i < bytes.len() && bytes[i] == 0
}

/// `text_len` is the one position that lies within the sequence, has no NUL
/// before it and, unless it is the end, holds a NUL.
pub proof fn lemma_text_len(bytes: Seq<u8>)
    ensures
        0 <= text_len(bytes) <= bytes.len(),
        forall|j: int| 0 <= j < text_len(bytes) ==> bytes[j] != 0,
        text_len(bytes) < bytes.len() ==> bytes[text_len(bytes)] == 0,
        has_nul(bytes) <==> text_len(bytes) < bytes.len(),
    decreases bytes.len(),
{
    if bytes.len() == 0 || bytes.first() == 0 {
    } else {
        let rest = bytes.drop_first();
        lemma_text_len(rest);
        assert forall|j: int| 0 <= j < text_len(bytes) implies bytes[j] != 0 by {
            if j > 0 {
                assert(bytes[j] == rest[j - 1]);
            }
        }
        if text_len(bytes) < bytes.len() {
            assert(bytes[text_len(bytes)] == rest[text_len(rest)]);
        }
        if has_nul(bytes) {
            let i = choose|i: int| 0 <= i < bytes.len() && bytes[i] == 0;
            assert(rest[i - 1] == 0);
        }
    }
}

/// A position with no NUL before it that is the end or holds a NUL is
/// `text_len`.
pub proof fn lemma_text_len_unique(bytes: Seq<u8>, n: int)
    requires
        0 <= n <= bytes.len(),
        forall|j: int| 0 <= j < n ==> bytes[j] != 0,
        n < bytes.len() ==> bytes[n] == 0,
    ensures
        text_len(bytes) == n,
{
    lemma_text_len(bytes);
    let m = text_len(bytes);
    if m < n {
        assert(bytes[m] != 0);
    } else if n < m {
        assert(bytes[n] != 0);
    }
}

/// Text that fills a buffer to its last byte is read whole.
pub proof fn lemma_text_of_full(text: Seq<u8>)
    requires
        !has_nul(text),
    ensures
        text_of(text) == text,
{
    lemma_text_len(text);
}

/// Text that is followed by a NUL is read as it is, whatever comes after the
/// NUL.
pub proof fn lemma_text_of_terminated(text: Seq<u8>, tail: Seq<u8>)
    requires
        !has_nul(text),
    ensures
        text_of(text + seq![0u8] + tail) == text,
{
    let bytes = text + seq![0u8] + tail;
    assert forall|j: int| 0 <= j < text.len() implies bytes[j] != 0 by {
        assert(bytes[j] == text[j]);
    }
    assert(bytes[text.len() as int] == 0);
    lemma_text_len_unique(bytes, text.len() as int);
    assert(bytes.take(text.len() as int) == text);
}

/// Scans `buffer` for its first NUL and stops at the end of the buffer.
pub fn measure(buffer: &[u8]) -> (n: usize)
    ensures
        n == text_len(buffer@),
{
    let mut i: usize = 0;
    while i < buffer.len() && buffer[i] != 0
        invariant
            i <= buffer.len(),
            forall|j: int| 0 <= j < i ==> buffer@[j] != 0,
        decreases buffer.len() - i,
    {
        i = i + 1;
    }
    proof {
        lemma_text_len_unique(buffer@, i as int);
    }
    i
}

/// Copies out the bytes that precede the first NUL of `buffer`.
pub fn until_nul(buffer: &[u8]) -> (text: Vec<u8>)
    ensures
        text@ == text_of(buffer@),
{
    let n = measure(buffer);
    proof {
        lemma_text_len(buffer@);
    }
    let mut text: Vec<u8> = Vec::new();
    let mut i: usize = 0;
    while i < n
        invariant
            i <= n <= buffer.len(),
            text@ == buffer@.take(i as int),
        decreases n - i,
    {
        text.push(buffer[i]);
        assert(buffer@.take(i + 1) == buffer@.take(i as int).push(buffer@[i as int]));
        i = i + 1;
    }
    text
}

/// A zero-filled buffer of `capacity` bytes for the runtime to write into.
pub fn buffer(capacity: u32) -> (bytes: Vec<u8>)
    ensures
        bytes@.len() == capacity,
        forall|i: int| 0 <= i < capacity ==> bytes@[i] == 0,
{
    let mut bytes: Vec<u8> = Vec::new();
    let mut i: u32 = 0;
    while i < capacity
        invariant
            i <= capacity,
            bytes@.len() == i,
            forall|j: int| 0 <= j < i ==> bytes@[j] == 0,
        decreases capacity - i,
    {
        bytes.push(0);
        i = i + 1;
    }
    bytes
}

/// `String::from_utf8` of std: the bytes become a `String` exactly when they are
/// well-formed UTF-8, and the `String` then holds the characters they encode.
#[verifier::external_body]
fn string_from_utf8(bytes: Vec<u8>) -> (r: Option<String>)
    ensures
        r is Some <==> valid_utf8(bytes@),
        r matches Some(s) ==> s@ == decode_utf8(bytes@),
{
    String::from_utf8(bytes).ok()
}

/// Reads the text that the runtime left in a fixed buffer: the bytes before
/// the first NUL, or the whole buffer where it holds none. Nothing behind the
/// first NUL and nothing beyond the buffer is looked at. The text is absent
/// where those bytes are not UTF-8.
pub fn decode(buffer: &[u8]) -> (r: Option<String>)
    ensures
        r is Some <==> valid_utf8(text_of(buffer@)),
        r matches Some(s) ==> s@ == decode_utf8(text_of(buffer@)),
{
    string_from_utf8(until_nul(buffer))
}

/// Text could not be handed to the runtime because it holds a NUL byte, which
/// the runtime would take for its end.
#[derive(Debug, Clone, Copy, PartialEq, Eq, Structural)]
pub struct NulError {
    position: usize,
}

impl NulError {
    /// Where the first NUL stands in the rejected text.
    pub closed spec fn position(&self) -> int {
        self.position as int
    }

    /// Where the first NUL stands in the rejected text.
    pub fn nul_position(&self) -> (at: usize)
        ensures
            at == self.position(),
    {
        self.position
    }
}

/// Text ready for the runtime: checked to hold no NUL, and terminated by one.
#[derive(Debug)]
pub struct MarshaledString {
    bytes: Vec<u8>,
}

impl View for MarshaledString {
    type V = Seq<u8>;

    /// The text, without its terminator.
    closed spec fn view(&self) -> Seq<u8> {
        self.bytes@.drop_last()
    }
}

impl MarshaledString {
    #[verifier::type_invariant]
    spec fn terminated(&self) -> bool {
        self.bytes@.len() > 0 && text_len(self.bytes@) == self.bytes@.len() - 1
    }

    /// Terminates `text` for the runtime, unless it holds a NUL: then nothing
    /// is produced and the place of the first NUL is reported.
    pub fn from_bytes(text: &[u8]) -> (r: Result<MarshaledString, NulError>)
        ensures
            r is Err <==> has_nul(text@),
            r matches Ok(s) ==> s@ == text@,
            r matches Err(e) ==> e.position() == text_len(text@),
    {
        let n = measure(text);
        proof {
            lemma_text_len(text@);
        }
        if n < text.len() {
            return Err(NulError { position: n });
        }
        let mut bytes: Vec<u8> = Vec::new();
        let mut i: usize = 0;
        while i < text.len()
            invariant
                i <= text.len(),
                bytes@ == text@.take(i as int),
            decreases text.len() - i,
        {
            bytes.push(text[i]);
            assert(text@.take(i + 1) == text@.take(i as int).push(text@[i as int]));
            i = i + 1;
        }
        assert(bytes@ == text@);
        bytes.push(0);
        proof {
            lemma_text_len_unique(bytes@, text@.len() as int);
            assert(bytes@.drop_last() == text@);
        }
        Ok(MarshaledString { bytes })
    }

    /// Terminates the UTF-8 bytes of `text` for the runtime, unless one of
    /// them is NUL.
    pub fn new(text: &str) -> (r: Result<MarshaledString, NulError>)
        ensures
            r is Err <==> has_nul(text.spec_bytes()),
            r matches Ok(s) ==> s@ == text.spec_bytes(),
            r matches Err(e) ==> e.position() == text_len(text.spec_bytes()),
    {
        MarshaledString::from_bytes(text.as_bytes())
    }

    /// The bytes to hand to the runtime: the text and one NUL behind it, which
    /// is the only one.
    pub fn as_bytes_with_nul(&self) -> (bytes: &[u8])
        ensures
            bytes@ == self@.push(0),
            !has_nul(self@),
    {
        proof {
            use_type_invariant(self);
            lemma_text_len(self.bytes@);
            assert(self.bytes@ == self.bytes@.drop_last().push(0));
            assert forall|i: int| 0 <= i < self@.len() implies self@[i] != 0 by {
                assert(self@[i] == self.bytes@[i]);
            }
        }
        self.bytes.as_slice()
    }

    /// Number of bytes of the text, the terminator not counted.
    pub fn len(&self) -> (n: usize)
        ensures
            n == self@.len(),
    {
        proof {
            use_type_invariant(self);
        }
        self.bytes.len() - 1
    }
}

/// A string query that asks the runtime twice: first without a buffer, to
/// learn how many bytes the text and its terminator take, then with a buffer
/// of exactly that size.
#[derive(Debug, Clone, Copy, PartialEq, Eq, Structural)]
pub struct StringQuery {
    required: u32,
}

/// What a reply of the runtime means for a string query.
#[derive(Debug)]
pub enum QueryStep {
    /// The runtime has no such text. No further call is made.
    Absent,
    /// The size is known: call once more, with a buffer of `capacity()` bytes.
    Again(StringQuery),
    /// The text, its terminator stripped.
    Text(Vec<u8>),
    /// The second reply contradicts the first. The runtime has broken its
    /// contract: the host stops, and no error is handed to its caller.
    Fault,
}

impl StringQuery {
    /// Size that the first reply reported; zero before the first reply.
    pub closed spec fn required(&self) -> int {
        self.required as int
    }

    /// A query before its first call.
    pub fn new() -> (q: StringQuery)
        ensures
            q.required() == 0,
    {
        StringQuery { required: 0 }
    }

    /// Size of the buffer for the next call. Zero stands for no buffer at
    /// all: the runtime is handed a null pointer.
    pub fn capacity(&self) -> (n: u32)
        ensures
            n == self.required(),
    {
        self.required
    }

    /// Takes the runtime's reply to the call that `capacity` described:
    /// the size it `reported` and the `storage` it was given to fill (empty for
    /// the first call).
    pub fn reply(self, reported: u32, storage: Vec<u8>) -> (step: QueryStep)
        ensures
            self.required() == 0 && reported == 0 ==> step is Absent,
            self.required() == 0 && reported != 0 ==> (step matches QueryStep::Again(next)
                && next.required() == reported),
            self.required() != 0 && (reported != self.required() || storage@.len() != reported)
                ==> step is Fault,
            self.required() != 0 && reported == self.required() && storage@.len() == reported
                ==> (step matches QueryStep::Text(text) && text@ == storage@.take(reported - 1)),
    {
        if self.required == 0 {
            if reported == 0 {
                QueryStep::Absent
            } else {
                QueryStep::Again(StringQuery { required: reported })
            }
        } else if reported != self.required || storage.len() != reported as usize {
            QueryStep::Fault
        } else {
            let mut text = storage;
            text.truncate((reported - 1) as usize);
            QueryStep::Text(text)
        }
    }
}

} // verus!
