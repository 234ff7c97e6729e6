//! The uniform result that crosses the boundary, and the encoding of
//! errors into it.
use vstd::prelude::*;
use vstd::slice::slice_to_vec;
use vstd::utf8::{decode_utf8, encode_utf8, valid_utf8};
use crate::repr_c::ReprC;
use crate::string::{c_text_bytes, c_text_of, decimal, has_nul, first_nul, nul_byte_message, nul_message, find_nul, string_from_c_bytes, StringError};
use crate::ErrorCode;

verus! {

/// A result in native form.
#[derive(Clone, Debug)]
pub struct NativeResult {
    /// Error code; zero for success.
    pub error_code: i32,
    /// Description of the error, if there is one.
    pub description: Option<String>,
}

/// A result in boundary form: the code, and the description as a pointer
/// to NUL-terminated bytes (`None` for a null pointer). Dropping it releases
/// the description.
#[derive(Debug)]
pub struct FfiResult {
    /// Error code; zero for success.
    pub error_code: i32,
    /// The description's bytes, terminator included, or `None`.
    pub description: Option<Vec<u8>>,
}

/// What a boundary result holds.
pub struct ResultView {
    /// Error code; zero for success.
    pub error_code: i32,
    /// The description's bytes, terminator included, or `None`.
    pub description: Option<Seq<u8>>,
}

/// The description used when an error's own text cannot cross the boundary.
pub open spec fn fallback_description() -> Seq<char> {
    "Could not convert error description into CString"@
}

/// The bytes that carry the description `desc` of an error: the text itself
/// when it can cross, the fallback text when it holds a NUL byte.
pub open spec fn error_description_bytes(desc: Seq<char>) -> Seq<u8> {
    if has_nul(encode_utf8(desc)) {
        c_text_of(fallback_description())
    } else {
        c_text_of(desc)
    }
}

/// The boundary result reporting an error with `code` and description `desc`.
pub open spec fn error_result_view(code: i32, desc: Seq<char>) -> ResultView {
    ResultView { error_code: code, description: Some(error_description_bytes(desc)) }
}

/// The boundary result reporting success.
pub open spec fn ok_result_view() -> ResultView {
    ResultView { error_code: 0, description: None }
}

/// A boundary result after its description has been released.
pub open spec fn released(v: ResultView) -> ResultView {
    ResultView { error_code: v.error_code, description: None }
}

/// Whether `r` is what building the boundary form of a result with `code`
/// and description `desc` gives: the description as NUL-terminated UTF-8, or
/// an error naming the first NUL byte when the text holds one.
pub open spec fn encodes_to(code: i32, desc: Option<Seq<char>>, r: Result<FfiResult, StringError>) -> bool {
    match desc {
        None => r matches Ok(f) && f@ == (ResultView { error_code: code, description: None }),
        Some(d) => if has_nul(encode_utf8(d)) {
            r matches Err(StringError::Null(m)) && m@ == nul_byte_message() + decimal(
                first_nul(encode_utf8(d)) as nat,
            )
        } else {
            r matches Ok(f) && f@ == (ResultView { error_code: code, description: Some(c_text_of(d)) })
        },
    }
}

/// Whether the description of `v`, if any, is terminated and so can be read.
pub open spec fn readable_result(v: ResultView) -> bool {
    v.description matches Some(b) ==> has_nul(b)
}

/// Whether `r` is what rebuilding the native form of `v` gives: the code,
/// and the description read up to its terminator and decoded, or a UTF-8
/// error.
pub open spec fn native_rebuilds_to(v: ResultView, r: Result<NativeResult, StringError>) -> bool {
    match v.description {
        None => r matches Ok(n) && n.error_code == v.error_code && n.description is None,
        Some(b) => if valid_utf8(c_text_bytes(b)) {
            r matches Ok(n) && n.error_code == v.error_code && n.description_view() == Some(
                decode_utf8(c_text_bytes(b)),
            )
        } else {
            r matches Err(StringError::Utf8(_))
        },
    }
}

impl View for FfiResult {
    type V = ResultView;

    open spec fn view(&self) -> ResultView {
        ResultView {
            error_code: self.error_code,
            description: match self.description {
                Some(b) => Some(b@),
                None => None,
            },
        }
    }
}

impl FfiResult {
    /// The result that reports success; it has no description to release.
    pub fn ok() -> (r: FfiResult)
        ensures
            r@ == ok_result_view(),
    {
        FfiResult { error_code: 0, description: None }
    }

    /// Releases the description, leaving the code. Releasing a result
    /// whose description is already absent does nothing.
    pub fn release(&mut self)
        ensures
            final(self)@ == released(old(self)@),
    {
        self.description = None;
    }
}

impl NativeResult {
    /// The description as text, if there is one.
    pub open spec fn description_view(&self) -> Option<Seq<char>> {
        match self.description {
            Some(d) => Some(d@),
            None => None,
        }
    }

    /// Builds the boundary form, consuming `self`. Fails when the
    /// description holds a NUL byte, which a C string cannot carry.
    pub fn into_repr_c(self) -> (r: Result<FfiResult, StringError>)
        ensures
            encodes_to(self.error_code, self.description_view(), r),
    {
        match self.description {
            None => Ok(FfiResult { error_code: self.error_code, description: None }),
            Some(d) => {
                let bytes = d.as_str().as_bytes();
                match find_nul(bytes) {
                    Some(pos) => Err(StringError::Null(nul_message(pos))),
                    None => {
                        let mut v = slice_to_vec(bytes);
                        v.push(0);
                        Ok(FfiResult { error_code: self.error_code, description: Some(v) })
                    },
                }
            },
        }
    }
}

/// Rebuilds the native form of a boundary result by copying; the boundary
/// form stays with its owner.
impl ReprC for NativeResult {
    type C = FfiResult;
    type Error = StringError;

    open spec fn repr_c_readable(repr_c: FfiResult) -> bool {
        readable_result(repr_c@)
    }

    open spec fn rebuilds_to(repr_c: FfiResult, r: Result<NativeResult, StringError>) -> bool {
        native_rebuilds_to(repr_c@, r)
    }

    fn is_readable(repr_c: &FfiResult) -> (r: bool) {
        match &repr_c.description {
            None => true,
            Some(b) => find_nul(b.as_slice()).is_some(),
        }
    }

    fn clone_from_repr_c(repr_c: &FfiResult) -> (r: Result<NativeResult, StringError>) {
        match &repr_c.description {
            None => Ok(NativeResult { error_code: repr_c.error_code, description: None }),
            Some(b) => match string_from_c_bytes(b.as_slice()) {
                Ok(s) => Ok(NativeResult { error_code: repr_c.error_code, description: Some(s) }),
                Err(e) => Err(e),
            },
        }
    }
}

/// Releasing a result twice is the same as releasing it once: once the
/// description is absent, releasing again frees nothing.
pub proof fn lemma_release_idempotent(v: ResultView)
    ensures
        released(released(v)) == released(v),
        released(v).description is None,
        released(v).error_code == v.error_code,
{
}

} // verus!
