//! Containing failures of an operation at the boundary.
//!
//! The operation runs inside a panic-catching boundary; what that boundary
//! observed is handed here as a `Caught` value. A panic becomes an error made
//! from the message `"panic"`, and every error is reported through the
//! callback, so the callback fires exactly once per call: by the operation
//! itself on success, or here on failure.
use vstd::prelude::*;
use vstd::std_specs::convert::FromSpec;
use crate::callback::{fired_once_more, Callback};
use crate::encode::call_result_cb;
use crate::result::error_result_view;
use crate::{ErrorCode, OpaqueCtx};

verus! {

/// What running an operation inside the panic-catching boundary gave.
pub enum Caught<T, E> {
    /// The operation returned.
    Returned(Result<T, E>),
    /// The operation panicked.
    Panicked,
}

/// The result of a caught operation: what it returned, or the error made
/// from the message `"panic"` if it panicked.
pub fn settle_caught<T, E: From<&'static str>>(caught: Caught<T, E>) -> (r: Result<T, E>)
    ensures
        caught matches Caught::Returned(res) ==> r == res,
        caught is Panicked ==> r is Err,
        caught is Panicked ==> (r matches Err(e) && call_ensures(
            <E as From<&'static str>>::from,
            ("panic",),
            e,
        )),
        caught is Panicked && E::obeys_from_spec() ==> r == Err::<T, E>(E::from_spec("panic")),
{
    match caught {
        Caught::Returned(res) => res,
        Caught::Panicked => Err(E::from("panic")),
    }
}

/// Completes a call whose operation was caught: on success the operation
/// has already fired `cb` and nothing more happens; on an error or a panic
/// `cb` fires exactly once, with the error's code and description and the
/// safe default extra arguments.
pub fn report_caught<E: ErrorCode + From<&'static str>, C: Callback>(
    user_data: OpaqueCtx,
    cb: &mut C,
    caught: Caught<(), E>,
)
    ensures
        caught matches Caught::Returned(Ok(_)) ==> final(cb).firings() == old(cb).firings(),
        caught matches Caught::Returned(Err(e)) ==> fired_once_more(
            old(cb).firings(),
            final(cb).firings(),
            user_data,
            error_result_view(e.code_spec(), e.description_spec()),
        ),
        caught is Panicked ==> final(cb).firings().len() == old(cb).firings().len() + 1,
        caught is Panicked ==> final(cb).firings().last().result.error_code != 0,
        caught is Panicked ==> final(cb).firings().last().result.description is Some,
        caught is Panicked ==> exists|e: E|
            call_ensures(<E as From<&'static str>>::from, ("panic",), e) && fired_once_more(
                old(cb).firings(),
                final(cb).firings(),
                user_data,
                error_result_view(e.code_spec(), e.description_spec()),
            ),
        caught is Panicked && E::obeys_from_spec() ==> fired_once_more(
            old(cb).firings(),
            final(cb).firings(),
            user_data,
            error_result_view(
                E::from_spec("panic").code_spec(),
                E::from_spec("panic").description_spec(),
            ),
        ),
{
    let res = settle_caught(caught);
    if let Err(_) = &res {
        call_result_cb(&res, user_data, cb);
    }
}

} // verus!
