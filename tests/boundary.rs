use sn_ffi_utils::callback::{Callback, CallbackArgs};
use sn_ffi_utils::containment::{report_caught, settle_caught, Caught};
use sn_ffi_utils::encode::{call_result_cb, error_ffi_result, ffi_result, ffi_result_code, try_cb};
use sn_ffi_utils::test_utils::{
    rebuild_vec_u8, Callback0, Callback1, Callback2, CallbackFfiResult1, CallbackVec, CallbackVecU8,
    TestError,
};
use sn_ffi_utils::{FfiResult, NativeResult, OpaqueCtx, ReprC, StringError};

const FALLBACK: &[u8] = b"Could not convert error description into CString\0";

// A typical boundary function: reports `input_param * 42` through its
// callback, and panics (here: is caught as having panicked) on overflow.
fn foreign_function(input_param: i32, user_data: OpaqueCtx, o_callback: &mut Callback1<i32>) {
    let (output, overflow) = input_param.overflowing_mul(42);
    let caught: Caught<(), TestError> = if overflow {
        Caught::Panicked
    } else {
        o_callback.call(user_data, &FfiResult::ok(), output);
        Caught::Returned(Ok(()))
    };
    report_caught(user_data, o_callback, caught);
}

fn call_1(input_param: i32) -> Result<i32, i32> {
    let mut cb = Callback1::<i32>::new();
    foreign_function(input_param, OpaqueCtx(7), &mut cb);
    match cb.into_reply().expect("the callback fired") {
        Ok(rebuilt) => Ok(rebuilt.expect("the value rebuilds")),
        Err(code) => Err(code),
    }
}

#[test]
fn basic() {
    let val: i32 = call_1(1).unwrap();
    assert_eq!(val, 42);

    let res: Result<i32, i32> = call_1(i32::MAX);
    match res {
        Ok(value) => panic!("Unexpected value: {:?}", value),
        Err(-2) => (),
        Err(e) => panic!("Unexpected error: {:?}", e),
    }
}

fn multiply_by_42(input_param: i32) -> Result<i32, TestError> {
    let (output, overflow) = input_param.overflowing_mul(42);
    if overflow {
        Err(TestError::FromStr("Overflow detected and prevented".into()))
    } else {
        Ok(output)
    }
}

// Reports through the callback itself, then returns `Ok`.
fn foreign_function2(input_param: i32, user_data: OpaqueCtx, o_callback: &mut CallbackFfiResult1<i32>) {
    match multiply_by_42(input_param) {
        Ok(output) => o_callback.call(user_data, &FfiResult::ok(), output),
        Err(e) => {
            let err: Result<(), TestError> = Err(e);
            call_result_cb(&err, user_data, o_callback);
        }
    }
    report_caught::<TestError, _>(user_data, o_callback, Caught::Returned(Ok(())));
}

fn call_1_ffi_result(input_param: i32) -> Result<i32, NativeResult> {
    let mut cb = CallbackFfiResult1::<i32>::new();
    foreign_function2(input_param, OpaqueCtx(0), &mut cb);
    match cb.into_reply().expect("the callback fired") {
        Ok(rebuilt) => Ok(rebuilt.expect("the value rebuilds")),
        Err(native) => Err(native.expect("the result rebuilds")),
    }
}

#[test]
fn utility_functions() {
    let val: i32 = call_1_ffi_result(1).unwrap();
    assert_eq!(val, 42);

    let res: Result<i32, NativeResult> = call_1_ffi_result(i32::MAX);
    match res {
        Ok(_) => panic!("Unexpected value"),
        Err(native_result) => {
            assert_eq!(native_result.error_code, -2);
            assert_eq!(
                native_result.description,
                Some("Overflow detected and prevented".into())
            );
        }
    }
}

#[test]
fn panic_reaches_callback_with_its_description() {
    let mut cb = CallbackFfiResult1::<u64>::new();
    report_caught::<TestError, _>(OpaqueCtx(5), &mut cb, Caught::Panicked);
    match cb.into_reply().unwrap() {
        Err(native) => {
            let native = native.unwrap();
            assert_eq!(native.error_code, -2);
            assert_eq!(native.description, Some("panic".to_string()));
        }
        Ok(_) => panic!("Unexpected value"),
    }
}

#[test]
fn fallback_reaches_callback() {
    let mut cb = CallbackFfiResult1::<u64>::new();
    let err: Result<(), TestError> = Err(TestError::FromStr("a\0b".to_string()));
    call_result_cb(&err, OpaqueCtx(5), &mut cb);
    match cb.into_reply().unwrap() {
        Err(native) => {
            let native = native.unwrap();
            assert_eq!(native.error_code, -2);
            assert_eq!(
                native.description,
                Some("Could not convert error description into CString".to_string())
            );
        }
        Ok(_) => panic!("Unexpected value"),
    }
}

#[test]
fn success_fires_once_with_code_zero() {
    let mut cb = Callback0::new();
    cb.call(OpaqueCtx(3), &FfiResult::ok(), ());
    report_caught::<TestError, _>(OpaqueCtx(3), &mut cb, Caught::Returned(Ok(())));
    assert_eq!(cb.into_reply(), Some(Ok(())));
}

#[test]
fn panic_is_reported_as_error() {
    let mut cb = Callback0::new();
    report_caught::<TestError, _>(OpaqueCtx(0), &mut cb, Caught::Panicked);
    assert_eq!(cb.into_reply(), Some(Err(-2)));
}

#[test]
fn panic_becomes_panic_message_error() {
    let r: Result<(), TestError> = settle_caught(Caught::Panicked);
    match r {
        Err(TestError::FromStr(m)) => assert_eq!(m, "panic"),
        other => panic!("Unexpected result: {:?}", other),
    }
    let r: Result<u32, TestError> = settle_caught(Caught::Returned(Ok(5)));
    assert_eq!(r.unwrap(), 5);
}

#[test]
fn error_is_reported_with_its_code() {
    let mut cb = Callback0::new();
    report_caught(OpaqueCtx(0), &mut cb, Caught::Returned(Err(TestError::Test)));
    assert_eq!(cb.into_reply(), Some(Err(-1)));
}

#[test]
fn only_the_first_firing_counts() {
    let mut cb = Callback0::new();
    let err: Result<(), TestError> = Err(TestError::Test);
    call_result_cb(&err, OpaqueCtx(0), &mut cb);
    cb.call(OpaqueCtx(0), &FfiResult::ok(), ());
    assert_eq!(cb.into_reply(), Some(Err(-1)));
}

#[test]
fn error_description_crosses() {
    let res = error_ffi_result(-1, "Test Error".to_string());
    assert_eq!(res.error_code, -1);
    assert_eq!(res.description, Some(b"Test Error\0".to_vec()));
    let back = NativeResult::clone_from_repr_c(&res).unwrap();
    assert_eq!(back.description, Some("Test Error".to_string()));
}

#[test]
fn nul_in_description_gives_fallback() {
    let res = error_ffi_result(-7, "bad\0text".to_string());
    assert_eq!(res.error_code, -7);
    assert_eq!(res.description, Some(FALLBACK.to_vec()));
    let back = NativeResult::clone_from_repr_c(&res).unwrap();
    assert_eq!(
        back.description,
        Some("Could not convert error description into CString".to_string())
    );
}

#[test]
fn into_repr_c_refuses_nul() {
    let n = NativeResult { error_code: -3, description: Some("a\0b".to_string()) };
    match n.into_repr_c() {
        Err(StringError::Null(m)) => {
            assert_eq!(m, "nul byte found in provided data at position: 1")
        }
        _ => panic!("expected a NUL error"),
    }
    let n = NativeResult { error_code: -3, description: Some("0123456789abc\0".to_string()) };
    match n.into_repr_c() {
        Err(StringError::Null(m)) => {
            assert_eq!(m, "nul byte found in provided data at position: 13")
        }
        _ => panic!("expected a NUL error"),
    }
}

#[test]
fn into_repr_c_without_description() {
    let n = NativeResult { error_code: 0, description: None };
    let f = n.into_repr_c().unwrap();
    assert_eq!(f.error_code, 0);
    assert_eq!(f.description, None);
}

#[test]
fn release_twice_is_safe() {
    let mut r = error_ffi_result(-1, "x".to_string());
    r.release();
    assert_eq!(r.description, None);
    r.release();
    assert_eq!(r.description, None);
    assert_eq!(r.error_code, -1);
    let mut ok = FfiResult::ok();
    ok.release();
    assert_eq!(ok.error_code, 0);
    assert_eq!(ok.description, None);
}

#[test]
fn encode_success_and_error() {
    let ok: Result<u8, TestError> = Ok(1);
    assert_eq!(ffi_result_code(&ok), 0);
    let n = ffi_result(&ok);
    assert_eq!(n.error_code, 0);
    assert_eq!(n.description, None);
    let err: Result<u8, TestError> = Err(TestError::FromStr("boom".to_string()));
    assert_eq!(ffi_result_code(&err), -2);
    let n = ffi_result(&err);
    assert_eq!(n.error_code, -2);
    assert_eq!(n.description, Some("boom".to_string()));
}

#[test]
fn try_cb_passes_values_and_reports_errors() {
    let mut cb = Callback0::new();
    let ok: Result<u8, TestError> = Ok(9);
    assert_eq!(try_cb(ok, OpaqueCtx(0), &mut cb), Some(9));
    let err: Result<u8, TestError> = Err(TestError::Test);
    assert_eq!(try_cb(err, OpaqueCtx(0), &mut cb), None);
    assert_eq!(cb.into_reply(), Some(Err(-1)));
}

#[test]
fn two_arguments_rebuild() {
    let mut cb = Callback2::<u64, bool>::new();
    cb.call(OpaqueCtx(1), &FfiResult::ok(), (77u64, 1u32));
    match cb.into_reply().unwrap() {
        Ok((a, b)) => {
            assert_eq!(a, Ok(77));
            assert_eq!(b, Ok(true));
        }
        Err(code) => panic!("Unexpected error: {}", code),
    }
    let mut cb = Callback2::<u64, bool>::new();
    let err: Result<(), TestError> = Err(TestError::Test);
    call_result_cb(&err, OpaqueCtx(1), &mut cb);
    assert!(matches!(cb.into_reply(), Some(Err(-1))));
}

#[test]
fn string_argument_rebuilds() {
    let mut cb = Callback1::<String>::new();
    cb.call(OpaqueCtx(1), &FfiResult::ok(), Some(b"hi\0junk".to_vec()));
    assert_eq!(cb.into_reply(), Some(Ok(Ok("hi".to_string()))));
}

#[test]
fn array_argument_is_copied() {
    let mut cb = CallbackVec::<u32>::new();
    cb.call(OpaqueCtx(1), &FfiResult::ok(), (Some(vec![1u32, 2, 3, 4]), 3));
    assert_eq!(cb.into_reply(), Some(Ok(Ok(vec![1, 2, 3]))));
    let mut cb = CallbackVec::<String>::new();
    cb.call(OpaqueCtx(1), &FfiResult::ok(), (Some(vec![Some(b"a\0".to_vec()), None]), 2));
    match cb.into_reply() {
        Some(Ok(Err(StringError::Null(_)))) => (),
        other => panic!("Unexpected reply: {:?}", other),
    }
    let mut cb = CallbackVec::<u32>::new();
    cb.call(OpaqueCtx(1), &FfiResult::ok(), (None, 0));
    assert_eq!(cb.into_reply(), Some(Ok(Ok(vec![]))));
}

#[test]
fn byte_argument_is_copied() {
    let mut cb = CallbackVecU8::new();
    cb.call(OpaqueCtx(1), &FfiResult::ok(), (Some(vec![9u8, 8, 7]), 2));
    assert_eq!(cb.into_reply(), Some(Ok(vec![9, 8])));
    assert_eq!(rebuild_vec_u8(-4, &Some(vec![1u8]), 1), Err(-4));
    assert_eq!(rebuild_vec_u8(0, &None, 0), Ok(vec![]));
}

#[test]
fn error_arguments_are_safe_defaults() {
    assert_eq!(<u32 as CallbackArgs>::default(), 0);
    assert_eq!(<i64 as CallbackArgs>::default(), 0);
    assert!(!<bool as CallbackArgs>::default());
    assert_eq!(<[u8; 32] as CallbackArgs>::default(), [0u8; 32]);
    assert_eq!(<Option<Vec<u8>> as CallbackArgs>::default(), None);
    let t: (usize, i32, Option<u8>) = CallbackArgs::default();
    assert_eq!(t, (0, 0, None));
}

#[test]
fn pending_holds_the_firing_to_forward() {
    let mut pending = sn_ffi_utils::Pending::<u32>::new();
    report_caught::<TestError, _>(OpaqueCtx(9), &mut pending, Caught::Panicked);
    let (res, arg) = pending.into_last().unwrap();
    assert_eq!(res.error_code, -2);
    assert_eq!(res.description, Some(b"panic\0".to_vec()));
    assert_eq!(arg, 0);
    let mut pending = sn_ffi_utils::Pending::<u32>::new();
    report_caught::<TestError, _>(OpaqueCtx(9), &mut pending, Caught::Returned(Ok(())));
    assert!(pending.into_last().is_none());
}
