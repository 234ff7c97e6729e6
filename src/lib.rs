//! Utilities for crossing a C-ABI call boundary safely: a uniform result
//! encoding, conversions between native values and their boundary shapes,
//! one-shot ownership transfer of buffers, callback invocation with safe
//! defaults on the error path, and callbacks that capture what a
//! callback-driven call reported.
use vstd::prelude::*;

pub mod bindgen_utils;
pub mod callback;
pub mod containment;
pub mod encode;
pub mod result;
pub mod string;
pub mod test_utils;

mod b64;
mod repr_c;
mod vec;

pub use crate::b64::{base64_decode, base64_encode, Base64Error};
pub use crate::callback::{Callback, CallbackArgs, Firing, Pending};
pub use crate::repr_c::{LosslessReprC, ReprC};
pub use crate::result::{FfiResult, NativeResult, ResultView};
pub use crate::string::StringError;
pub use crate::vec::{vec_clone_from_raw_parts, vec_from_raw_parts, vec_into_raw_parts, RawParts, SafePtr};

verus! {

/// Opaque user data handed into a boundary function and routed back,
/// unchanged, to its callback. The library never looks inside it.
#[derive(Clone, Copy, Debug, PartialEq, Eq, Structural)]
pub struct OpaqueCtx(pub usize);

/// Types that map to an integer error code and a description.
pub trait ErrorCode {
    /// The code of this error.
    spec fn code_spec(&self) -> i32;

    /// The human-readable description of this error.
    spec fn description_spec(&self) -> Seq<char>;

    /// Returns the error code of this instance; zero is kept for success.
    fn error_code(&self) -> (r: i32)
        ensures
            r == self.code_spec(),
            r != 0,
    ;

    /// Returns the description of this instance.
    fn description(&self) -> (r: String)
        ensures
            r@ == self.description_spec(),
    ;
}

} // verus!
