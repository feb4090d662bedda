//! Text crossing the vendor boundary: Windows-1251 byte strings in both directions.
use encoding_rs::WINDOWS_1251;
use vstd::prelude::*;
use vstd::slice::slice_subrange;

use crate::error::Trans2QuikError;

verus! {

/// Text that encoding_rs's Windows-1251 decoder makes of a byte string.
pub uninterp spec fn windows1251_text(b: Seq<u8>) -> Seq<char>;

/// Bytes that encoding_rs's Windows-1251 encoder makes of a text.
pub uninterp spec fn windows1251_bytes(s: Seq<char>) -> Seq<u8>;

/// Every byte is below 0x80.
pub open spec fn is_ascii_bytes(b: Seq<u8>) -> bool {
    forall|i: int| 0 <= i < b.len() ==> b[i] < 0x80
}

/// Every character is below U+0080.
pub open spec fn is_ascii_text(s: Seq<char>) -> bool {
    forall|i: int| 0 <= i < s.len() ==> (s[i] as u32) < 0x80
}

/// ASCII bytes read as the characters with the same codes.
pub open spec fn ascii_chars(b: Seq<u8>) -> Seq<char> {
    Seq::new(b.len(), |i: int| b[i] as char)
}

/// ASCII characters written as the bytes with the same codes.
pub open spec fn ascii_bytes(s: Seq<char>) -> Seq<u8> {
    Seq::new(s.len(), |i: int| s[i] as u8)
}

/// A byte string read as Windows-1251, which agrees with ASCII below 0x80.
pub open spec fn decoded(b: Seq<u8>) -> Seq<char> {
    if is_ascii_bytes(b) {
        ascii_chars(b)
    } else {
        windows1251_text(b)
    }
}

/// A text written as Windows-1251, which agrees with ASCII below U+0080.
pub open spec fn encoded(s: Seq<char>) -> Seq<u8> {
    if is_ascii_text(s) {
        ascii_bytes(s)
    } else {
        windows1251_bytes(s)
    }
}

/// Relies on encoding_rs's `Encoding::decode_without_bom_handling` on
/// `WINDOWS_1251`: a single-byte decoder that copies ASCII bytes through and
/// whose table maps every other byte, so no malformed sequence is reported.
#[verifier::external_body]
fn decode_windows1251(bytes: &[u8]) -> (r: (String, bool))
    ensures
        is_ascii_bytes(bytes@) ==> r.0@ == ascii_chars(bytes@),
        !is_ascii_bytes(bytes@) ==> r.0@ == windows1251_text(bytes@),
        !r.1,
{
    let (text, had_errors) = WINDOWS_1251.decode_without_bom_handling(bytes);
    (text.into_owned(), had_errors)
}

/// Relies on encoding_rs's `Encoding::encode` on `WINDOWS_1251`, which hands
/// back the UTF-8 bytes of an all-ASCII text unchanged.
#[verifier::external_body]
fn encode_windows1251(s: &str) -> (r: Vec<u8>)
    ensures
        is_ascii_text(s@) ==> r@ == ascii_bytes(s@),
        !is_ascii_text(s@) ==> r@ == windows1251_bytes(s@),
{
    let (bytes, _, _) = WINDOWS_1251.encode(s);
    bytes.into_owned()
}


/// `k` is where the text of a NUL-terminated buffer ends: the index of its
/// first zero byte, or its length when it has none.
pub open spec fn is_text_end(b: Seq<u8>, k: int) -> bool {
    &&& 0 <= k <= b.len()
    &&& forall|j: int| 0 <= j < k ==> b[j] != 0
    &&& k < b.len() ==> b[k] == 0
}

/// The bytes of a buffer before its first zero byte.
pub open spec fn until_nul(b: Seq<u8>) -> Seq<u8> {
    b.take(choose|k: int| is_text_end(b, k))
}

/// What a buffer written by the vendor reads as.
pub open spec fn buffer_text(b: Seq<u8>) -> Seq<char> {
    decoded(until_nul(b))
}

/// Each buffer has exactly one text end.
pub proof fn lemma_text_end_unique(b: Seq<u8>, k: int)
    requires
        is_text_end(b, k),
    ensures
        until_nul(b) == b.take(k),
{
    let c = choose|c: int| is_text_end(b, c);
    assert(is_text_end(b, c));
    if c < k {
        assert(b[c] != 0);
    } else if k < c {
        assert(b[k] != 0);
    }
}

/// Reads the text of a buffer that the vendor filled: the bytes before the
/// first zero byte (all of them if there is none), decoded from Windows-1251.
pub fn extract_string_from_vec(buf: Vec<u8>) -> (r: String)
    ensures
        r@ == buffer_text(buf@),
{
    let mut k: usize = 0;
    while k < buf.len() && buf[k] != 0
        invariant
            k <= buf@.len(),
            forall|j: int| 0 <= j < k ==> buf@[j] != 0,
        decreases buf@.len() - k,
    {
        k = k + 1;
    }
    proof {
        lemma_text_end_unique(buf@, k as int);
    }
    let text = slice_subrange(buf.as_slice(), 0, k);
    let (s, _) = decode_windows1251(text);
    s
}

/// Why a text handed over by the vendor could not be read.
#[derive(Debug, Clone, Copy, PartialEq, Eq, Structural)]
pub enum DecodeLpstrError {
    /// The vendor passed a null pointer.
    NullPointer,
    /// A byte could not be mapped to a character.
    DecodeError,
}

impl DecodeLpstrError {
    /// The variant's name, as it appears in placeholders.
    pub fn name(&self) -> (r: &'static str)
        ensures
            r@ == decode_error_name(*self),
    {
        proof {
            reveal_strlit("NullPointer");
            reveal_strlit("DecodeError");
        }
        match self {
            DecodeLpstrError::NullPointer => "NullPointer",
            DecodeLpstrError::DecodeError => "DecodeError",
        }
    }
}

/// The name of an error variant, as text.
pub open spec fn decode_error_name(e: DecodeLpstrError) -> Seq<char> {
    match e {
        DecodeLpstrError::NullPointer => seq!['N', 'u', 'l', 'l', 'P', 'o', 'i', 'n', 't', 'e', 'r'],
        DecodeLpstrError::DecodeError => seq!['D', 'e', 'c', 'o', 'd', 'e', 'E', 'r', 'r', 'o', 'r'],
    }
}

/// Reads a NUL-terminated text that the vendor passed; `code` holds its bytes
/// without the terminator, or is `None` for a null pointer.
pub fn decode_lpstr(code: Option<Vec<u8>>) -> (r: Result<String, DecodeLpstrError>)
    ensures
        code is None ==> r == Err::<String, DecodeLpstrError>(DecodeLpstrError::NullPointer),
        code is Some ==> r is Ok && r->Ok_0@ == decoded(code->Some_0@),
{
    match code {
        None => Err(DecodeLpstrError::NullPointer),
        Some(bytes) => {
            let (s, had_errors) = decode_windows1251(bytes.as_slice());
            if had_errors {
                Err(DecodeLpstrError::DecodeError)
            } else {
                Ok(s)
            }
        },
    }
}

/// `p` is the index of the first NUL character of `s`.
pub open spec fn is_first_nul(s: Seq<char>, p: int) -> bool {
    &&& 0 <= p < s.len()
    &&& s[p] == '\0'
    &&& forall|j: int| 0 <= j < p ==> s[j] != '\0'
}

/// The NUL-terminated Windows-1251 buffer that carries `s` to the vendor.
pub open spec fn c_string(s: Seq<char>) -> Seq<u8> {
    encoded(s).push(0)
}

/// Makes the NUL-terminated buffer that passes `s` to the vendor. A text that
/// holds a NUL character cannot be passed: the error gives the index of the
/// first one.
pub fn encode_c_string(s: &str) -> (r: Result<Vec<u8>, Trans2QuikError>)
    ensures
        r is Ok <==> !s@.contains('\0'),
        r is Ok ==> r->Ok_0@ == c_string(s@),
        r is Err ==> (r->Err_0 matches Trans2QuikError::NulError(p) && is_first_nul(s@, p as int)),
{
    let n = s.unicode_len();
    let mut i: usize = 0;
    while i < n
        invariant
            n == s@.len(),
            i <= n,
            forall|j: int| 0 <= j < i ==> s@[j] != '\0',
        decreases n - i,
    {
        if s.get_char(i) == '\0' {
            return Err(Trans2QuikError::NulError(i));
        }
        i = i + 1;
    }
    let mut bytes = encode_windows1251(s);
    bytes.push(0);
    Ok(bytes)
}

/// An ASCII character and its byte stand for each other.
proof fn lemma_ascii_char(c: char)
    requires
        (c as u32) < 0x80,
    ensures
        (c as u8) < 0x80,
        (c as u8) as char == c,
        (c as u8) == 0 <==> c == '\0',
{
}

/// Text of the printable kind that transaction strings are made of (any ASCII
/// character but NUL) survives the trip to the vendor and back: the buffer
/// that carries it reads back as the same text.
pub proof fn lemma_text_round_trip(s: Seq<char>)
    requires
        is_ascii_text(s),
        !s.contains('\0'),
    ensures
        buffer_text(c_string(s)) == s,
{
    let b = c_string(s);
    let e = ascii_bytes(s);
    assert forall|j: int| 0 <= j < s.len() implies e[j] != 0 && e[j] < 0x80 && e[j] as char
        == s[j] by {
        lemma_ascii_char(s[j]);
        if e[j] == 0 {
            assert(s.contains(s[j]));
        }
    }
    assert(is_text_end(b, s.len() as int));
    lemma_text_end_unique(b, s.len() as int);
    assert(until_nul(b) =~= e);
    assert(is_ascii_bytes(e));
    assert(decoded(e) =~= s);
}

} // verus!
