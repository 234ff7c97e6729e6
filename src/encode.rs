//! Encoding results and errors, and reporting them through a callback.
use vstd::prelude::*;
use vstd::slice::slice_to_vec;
use crate::callback::{fired_once_more, Callback, CallbackArgs};
use crate::result::{
    error_result_view, fallback_description, ok_result_view, FfiResult, NativeResult,
};
use crate::string::{c_text_bytes, c_text_of, has_nul, lemma_c_text_has_nul, lemma_text_round_trip};
use vstd::utf8::{decode_utf8, encode_utf8, is_ascii_chars, is_ascii_chars_encode_utf8, valid_utf8};
use crate::{ErrorCode, OpaqueCtx};

verus! {

/// Returns the error code of `err`.
pub fn ffi_error_code<E: ErrorCode>(err: &E) -> (r: i32)
    ensures
        r == err.code_spec(),
        r != 0,
{
    err.error_code()
}

/// Returns the error code of `res`: zero for success.
pub fn ffi_result_code<T, E: ErrorCode>(res: &Result<T, E>) -> (r: i32)
    ensures
        res is Ok ==> r == 0,
        res matches Err(e) ==> r == e.code_spec(),
        res is Err ==> r != 0,
{
    match res {
        Ok(_) => 0,
        Err(e) => ffi_error_code(e),
    }
}

/// Returns the code and the description of `err`.
pub fn ffi_error<E: ErrorCode>(err: &E) -> (r: (i32, String))
    ensures
        r.0 == err.code_spec(),
        r.0 != 0,
        r.1@ == err.description_spec(),
{
    (ffi_error_code(err), err.description())
}

/// Returns the native result for `res`: code zero and no description for
/// success, the error's code and description otherwise.
pub fn ffi_result<T, E: ErrorCode>(res: &Result<T, E>) -> (r: NativeResult)
    ensures
        res is Ok ==> r.error_code == 0 && r.description is None,
        res matches Err(e) ==> r.error_code == e.code_spec() && r.description_view() == Some(
            e.description_spec(),
        ),
{
    match res {
        Ok(_) => NativeResult { error_code: 0, description: None },
        Err(e) => {
            let (code, desc) = ffi_error(e);
            NativeResult { error_code: code, description: Some(desc) }
        },
    }
}

/// The fallback description in boundary form.
fn fallback_bytes() -> (r: Vec<u8>)
    ensures
        r@ == c_text_of(fallback_description()),
{
    let text = "Could not convert error description into CString";
    let mut v = slice_to_vec(text.as_bytes());
    v.push(0);
    v
}

/// Builds the boundary result for an error with `code` and `description`.
/// A description that holds a NUL byte cannot cross, so the fallback
/// description takes its place; the code is kept either way.
pub fn error_ffi_result(code: i32, description: String) -> (r: FfiResult)
    ensures
        r@ == error_result_view(code, description@),
{
    match (NativeResult { error_code: code, description: Some(description) }).into_repr_c() {
        Ok(res) => res,
        Err(_) => FfiResult { error_code: code, description: Some(fallback_bytes()) },
    }
}

/// Reports `result` through `cb`, firing it exactly once with the safe
/// default extra arguments: with the success result, or with the error's
/// code and description.
pub fn call_result_cb<T, E: ErrorCode, C: Callback>(
    result: &Result<T, E>,
    user_data: OpaqueCtx,
    cb: &mut C,
)
    requires
        result is Ok ==> forall|a: C::Args|
            #![trigger C::readable_on_success(a)]
            a.is_safe_default() ==> C::readable_on_success(a),
    ensures
        result is Ok ==> fired_once_more(
            old(cb).firings(),
            final(cb).firings(),
            user_data,
            ok_result_view(),
        ),
        result matches Err(e) ==> fired_once_more(
            old(cb).firings(),
            final(cb).firings(),
            user_data,
            error_result_view(e.code_spec(), e.description_spec()),
        ),
        result is Err ==> final(cb).firings().last().result.error_code != 0,
{
    let res = match result {
        Ok(_) => FfiResult::ok(),
        Err(e) => {
            let (code, desc) = ffi_error(e);
            error_ffi_result(code, desc)
        },
    };
    proof {
        if let Err(e) = result {
            lemma_c_text_has_nul(fallback_description());
            lemma_c_text_has_nul(e.description_spec());
        }
    }
    let args = C::Args::default();
    cb.call(user_data, &res, args);
    assert(final(cb).firings().take(old(cb).firings().len() as int) =~= old(cb).firings());
}

/// Passes a success value through; on an error, reports it through `cb`
/// (firing it exactly once) and gives `None`.
pub fn try_cb<T, E: ErrorCode, C: Callback>(result: Result<T, E>, user_data: OpaqueCtx, cb: &mut C) -> (r: Option<T>)
    ensures
        result matches Ok(v) ==> r == Some(v) && final(cb).firings() == old(cb).firings(),
        result matches Err(e) ==> r is None && fired_once_more(
            old(cb).firings(),
            final(cb).firings(),
            user_data,
            error_result_view(e.code_spec(), e.description_spec()),
        ),
{
    match result {
        Ok(v) => Some(v),
        Err(e) => {
            let res: Result<(), E> = Err(e);
            call_result_cb(&res, user_data, cb);
            None
        },
    }
}

/// The fallback description can itself cross the boundary.
pub proof fn lemma_fallback_has_no_nul()
    ensures
        !has_nul(encode_utf8(fallback_description())),
{
    reveal_strlit("Could not convert error description into CString");
    let f = fallback_description();
    assert(is_ascii_chars(f));
    is_ascii_chars_encode_utf8(f);
    assert forall|i: int| 0 <= i < encode_utf8(f).len() implies encode_utf8(f)[i] != 0 by {
        assert(f[i] as u8 == encode_utf8(f)[i]);
    }
}

/// An error reported at the boundary keeps its code, and its description
/// reads back as the error's own text, or as the fallback text when its own
/// holds a NUL byte.
pub proof fn lemma_error_description_reads_back(code: i32, desc: Seq<char>)
    ensures
        error_result_view(code, desc).error_code == code,
        error_result_view(code, desc).description is Some,
        has_nul(error_result_view(code, desc).description->Some_0),
        valid_utf8(c_text_bytes(error_result_view(code, desc).description->Some_0)),
        decode_utf8(c_text_bytes(error_result_view(code, desc).description->Some_0)) == if has_nul(
            encode_utf8(desc),
        ) {
            fallback_description()
        } else {
            desc
        },
{
    if has_nul(encode_utf8(desc)) {
        lemma_fallback_has_no_nul();
        lemma_text_round_trip(fallback_description());
    } else {
        lemma_text_round_trip(desc);
    }
}

} // verus!
