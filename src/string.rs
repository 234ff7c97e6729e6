//! Text at the boundary.
//!
//! A text crosses as a pointer to NUL-terminated bytes. Here such a pointer
//! is modelled as `Option<Vec<u8>>`: `None` for a null pointer, otherwise the
//! bytes behind it, terminator included. Reading the text means taking the
//! bytes up to the first NUL.
use vstd::prelude::*;
use vstd::string::StringExecFns;
use vstd::utf8::{decode_utf8, encode_utf8, encode_utf8_decode_utf8, encode_utf8_valid_utf8, valid_utf8};
use crate::repr_c::ReprC;

verus! {

/// Errors met when moving text across the boundary.
#[derive(Debug, PartialEq, Eq)]
pub enum StringError {
    /// The bytes are not valid UTF-8.
    Utf8(String),
    /// A null pointer where text was expected, or a NUL byte inside text
    /// that must be terminated by one.
    Null(String),
    /// A C string that could not be turned back into native text.
    IntoString(String),
}

/// Message for a null pointer given where text was expected.
pub open spec fn null_pointer_message() -> Seq<char> {
    "String could not be constructed from C null pointer"@
}

/// Message for text that holds a NUL byte, without the position.
pub open spec fn nul_byte_message() -> Seq<char> {
    "nul byte found in provided data at position: "@
}

/// Whether `b` holds a NUL byte.
pub open spec fn has_nul(b: Seq<u8>) -> bool {
    exists|i: int| 0 <= i < b.len() && b[i] == 0
}

/// `i` is the position of the first NUL byte of `b`.
pub open spec fn is_first_nul(b: Seq<u8>, i: int) -> bool {
    &&& 0 <= i < b.len()
    &&& b[i] == 0
    &&& forall|j: int| 0 <= j < i ==> b[j] != 0
}

/// The position of the first NUL byte of `b` (meaningful when it has one).
pub open spec fn first_nul(b: Seq<u8>) -> int {
    choose|i: int| is_first_nul(b, i)
}

/// The text bytes behind a C pointer: those before the first NUL.
pub open spec fn c_text_bytes(b: Seq<u8>) -> Seq<u8> {
    b.take(first_nul(b))
}

/// The bytes that hold `s` at the boundary: its UTF-8 encoding, then a NUL.
pub open spec fn c_text_of(s: Seq<char>) -> Seq<u8> {
    encode_utf8(s).push(0)
}

/// The decimal digits of `n`, most significant first.
pub open spec fn decimal(n: nat) -> Seq<char>
    decreases n,
{
    if n < 10 {
        seq![digit_char(n)]
    } else {
        decimal(n / 10).push(digit_char(n % 10))
    }
}

/// The character of the decimal digit `d`.
pub open spec fn digit_char(d: nat) -> char {
    if d == 0 { '0' }
    else if d == 1 { '1' }
    else if d == 2 { '2' }
    else if d == 3 { '3' }
    else if d == 4 { '4' }
    else if d == 5 { '5' }
    else if d == 6 { '6' }
    else if d == 7 { '7' }
    else if d == 8 { '8' }
    else { '9' }
}

/// Any two first NUL positions are the same.
pub proof fn lemma_first_nul_unique(b: Seq<u8>, i: int)
    requires
        is_first_nul(b, i),
    ensures
        first_nul(b) == i,
        has_nul(b),
{
    let k = first_nul(b);
    assert(is_first_nul(b, k));
    if k < i {
        assert(b[k] != 0);
    } else if i < k {
        assert(b[i] != 0);
    }
}

/// Finds the first NUL byte of `b`.
pub fn find_nul(b: &[u8]) -> (r: Option<usize>)
    ensures
        r is None <==> !has_nul(b@),
        r matches Some(i) ==> is_first_nul(b@, i as int) && first_nul(b@) == i,
{
    let mut i: usize = 0;
    while i < b.len()
        invariant
            i <= b@.len(),
            forall|j: int| 0 <= j < i ==> b@[j] != 0,
        decreases b@.len() - i,
    {
        if b[i] == 0 {
            proof {
                lemma_first_nul_unique(b@, i as int);
            }
            return Some(i);
        }
        i = i + 1;
    }
    None
}

fn digit_str(d: u8) -> (r: &'static str)
    requires
        d < 10,
    ensures
        r@ == seq![digit_char(d as nat)],
{
    proof {
        reveal_strlit("0");
        reveal_strlit("1");
        reveal_strlit("2");
        reveal_strlit("3");
        reveal_strlit("4");
        reveal_strlit("5");
        reveal_strlit("6");
        reveal_strlit("7");
        reveal_strlit("8");
        reveal_strlit("9");
    }
    match d {
        0 => "0",
        1 => "1",
        2 => "2",
        3 => "3",
        4 => "4",
        5 => "5",
        6 => "6",
        7 => "7",
        8 => "8",
        _ => "9",
    }
}

/// Appends the decimal digits of `n` to `out`.
pub fn push_decimal(out: &mut String, n: usize)
    ensures
        final(out)@ == old(out)@ + decimal(n as nat),
    decreases n,
{
    if n < 10 {
        out.append(digit_str(n as u8));
    } else {
        push_decimal(out, n / 10);
        out.append(digit_str((n % 10) as u8));
        assert(final(out)@ =~= old(out)@ + decimal(n as nat));
    }
}

/// The message for text whose first NUL byte stands at `pos`.
pub fn nul_message(pos: usize) -> (r: String)
    ensures
        r@ == nul_byte_message() + decimal(pos as nat),
{
    let mut m = String::from_str("nul byte found in provided data at position: ");
    push_decimal(&mut m, pos);
    m
}

/// Relies on `std::str::from_utf8`: it succeeds exactly on valid UTF-8, and
/// then the text is what the bytes encode. On failure the error's display
/// text is returned.
#[verifier::external_body]
fn text_from_utf8(b: &[u8]) -> (r: Result<String, String>)
    ensures
        r is Ok <==> valid_utf8(b@),
        r matches Ok(s) ==> s@ == decode_utf8(b@),
{
    std::str::from_utf8(b).map(|s| s.to_owned()).map_err(|e| e.to_string())
}

/// Reads native text from the bytes behind a non-null C pointer.
pub fn string_from_c_bytes(b: &[u8]) -> (r: Result<String, StringError>)
    requires
        has_nul(b@),
    ensures
        valid_utf8(c_text_bytes(b@)) ==> (r matches Ok(s) && s@ == decode_utf8(c_text_bytes(b@))),
        !valid_utf8(c_text_bytes(b@)) ==> r matches Err(StringError::Utf8(_)),
{
    let end = match find_nul(b) {
        Some(i) => i,
        None => b.len(),
    };
    let mut text: Vec<u8> = Vec::with_capacity(end);
    let mut i: usize = 0;
    while i < end
        invariant
            end <= b@.len(),
            i <= end,
            text@ == b@.take(i as int),
        decreases end - i,
    {
        text.push(b[i]);
        i = i + 1;
        assert(text@ =~= b@.take(i as int));
    }
    match text_from_utf8(text.as_slice()) {
        Ok(s) => Ok(s),
        Err(m) => Err(StringError::Utf8(m)),
    }
}

/// Text crosses as a pointer to NUL-terminated UTF-8. A null pointer is
/// refused rather than read as empty text, so that "no text" and "empty
/// text" stay apart.
impl ReprC for String {
    type C = Option<Vec<u8>>;
    type Error = StringError;

    open spec fn repr_c_readable(repr_c: Option<Vec<u8>>) -> bool {
        repr_c matches Some(b) ==> has_nul(b@)
    }

    open spec fn rebuilds_to(repr_c: Option<Vec<u8>>, r: Result<String, StringError>) -> bool {
        match repr_c {
            None => r matches Err(StringError::Null(m)) && m@ == null_pointer_message(),
            Some(b) => if valid_utf8(c_text_bytes(b@)) {
                r matches Ok(s) && s@ == decode_utf8(c_text_bytes(b@))
            } else {
                r matches Err(StringError::Utf8(_))
            },
        }
    }

    fn is_readable(repr_c: &Option<Vec<u8>>) -> (r: bool) {
        match repr_c {
            None => true,
            Some(b) => find_nul(b.as_slice()).is_some(),
        }
    }

    fn clone_from_repr_c(repr_c: &Option<Vec<u8>>) -> (r: Result<String, StringError>) {
        match repr_c {
            None => Err(StringError::Null(
                String::from_str("String could not be constructed from C null pointer"),
            )),
            Some(b) => string_from_c_bytes(b.as_slice()),
        }
    }
}

/// Text without NUL bytes survives the boundary: its boundary bytes can be
/// read, are valid UTF-8 up to the terminator, and decode to the same text.
pub proof fn lemma_text_round_trip(s: Seq<char>)
    requires
        !has_nul(encode_utf8(s)),
    ensures
        has_nul(c_text_of(s)),
        valid_utf8(c_text_bytes(c_text_of(s))),
        decode_utf8(c_text_bytes(c_text_of(s))) == s,
{
    let e = encode_utf8(s);
    let b = c_text_of(s);
    assert forall|j: int| 0 <= j < e.len() implies b[j] != 0 by {
        if b[j] == 0 {
            assert(e[j] == 0);
        }
    }
    assert(is_first_nul(b, e.len() as int));
    lemma_first_nul_unique(b, e.len() as int);
    assert(c_text_bytes(b) =~= e);
    encode_utf8_valid_utf8(s);
    encode_utf8_decode_utf8(s);
}

/// The boundary bytes of any text are terminated.
pub proof fn lemma_c_text_has_nul(s: Seq<char>)
    ensures
        has_nul(c_text_of(s)),
{
    let b = c_text_of(s);
    assert(b[b.len() - 1] == 0);
}

} // verus!
