use sn_ffi_utils::bindgen_utils::has_extension;
use sn_ffi_utils::{
    base64_decode, base64_encode, vec_clone_from_raw_parts, vec_from_raw_parts,
    vec_into_raw_parts, Base64Error, LosslessReprC, ReprC, SafePtr, StringError,
};

#[test]
fn vec_conversions() {
    for _ in 0..5 {
        let v = vec!["foo", "bar"];

        for _ in 0..5 {
            let (ptr, len) = vec_into_raw_parts(v.clone());
            let v2 = vec_clone_from_raw_parts(&ptr, len);
            assert_eq!(v, v2);
            let v3 = vec_from_raw_parts(ptr, len);
            assert_eq!(v, v3);
        }
    }
}

#[test]
fn empty_buffer_round_trips() {
    let v: Vec<u64> = vec![];
    assert!(v.as_safe_ptr().is_none());
    let (parts, len) = vec_into_raw_parts(v);
    assert_eq!(len, 0);
    assert_eq!(vec_clone_from_raw_parts(&parts, 0), Vec::<u64>::new());
    assert_eq!(vec_from_raw_parts(parts, len), Vec::<u64>::new());
}

#[test]
fn clone_takes_a_prefix() {
    let (parts, len) = vec_into_raw_parts(vec![5u8, 6, 7]);
    assert_eq!(vec_clone_from_raw_parts(&parts, 2), vec![5, 6]);
    assert_eq!(vec_from_raw_parts(parts, len), vec![5, 6, 7]);
}

#[test]
fn safe_ptr_of_non_empty_buffer() {
    let v = vec![1i32, 2];
    assert_eq!(v.as_safe_ptr(), Some(&[1i32, 2][..]));
}

#[test]
fn scalars_round_trip() {
    for x in [0i32, -1, i32::MIN, i32::MAX] {
        assert_eq!(i32::clone_from_repr_c(&x.to_repr_c()), Ok(x));
    }
    for x in [0i64, i64::MIN, i64::MAX] {
        assert_eq!(i64::clone_from_repr_c(&x.to_repr_c()), Ok(x));
    }
    for x in [0u32, u32::MAX] {
        assert_eq!(u32::clone_from_repr_c(&x.to_repr_c()), Ok(x));
    }
    for x in [0u64, u64::MAX] {
        assert_eq!(u64::clone_from_repr_c(&x.to_repr_c()), Ok(x));
    }
    for x in [0usize, usize::MAX] {
        assert_eq!(usize::clone_from_repr_c(&x.to_repr_c()), Ok(x));
    }
    for x in [false, true] {
        assert_eq!(bool::clone_from_repr_c(&x.to_repr_c()), Ok(x));
    }
    assert_eq!(bool::clone_from_repr_c(&7), Ok(true));
    assert_eq!(true.to_repr_c(), 1);
    assert_eq!(false.to_repr_c(), 0);
}

#[test]
fn byte_arrays_round_trip() {
    let a = [3u8; 24];
    assert_eq!(<[u8; 24]>::clone_from_repr_c(&a.to_repr_c()), Ok(a));
    let mut b = [0u8; 32];
    b[31] = 255;
    assert_eq!(<[u8; 32]>::clone_from_repr_c(&b.to_repr_c()), Ok(b));
    let c = [1u8; 48];
    assert_eq!(<[u8; 48]>::clone_from_repr_c(&c.to_repr_c()), Ok(c));
    let d = [2u8; 64];
    assert_eq!(<[u8; 64]>::clone_from_repr_c(&d.to_repr_c()), Ok(d));
    let e = [9u8; 96];
    assert_eq!(<[u8; 96]>::clone_from_repr_c(&e.to_repr_c()), Ok(e));
}

#[test]
fn text_from_boundary() {
    assert_eq!(
        String::clone_from_repr_c(&Some(b"caf\xc3\xa9\0".to_vec())),
        Ok("caf\u{e9}".to_string())
    );
    assert_eq!(String::clone_from_repr_c(&Some(b"\0".to_vec())), Ok(String::new()));
    assert_eq!(
        String::clone_from_repr_c(&None),
        Err(StringError::Null(
            "String could not be constructed from C null pointer".to_string()
        ))
    );
    match String::clone_from_repr_c(&Some(vec![0xff, 0x41, 0])) {
        Err(StringError::Utf8(_)) => (),
        other => panic!("Unexpected result: {:?}", other),
    }
}

#[test]
fn base64_known_values() {
    assert_eq!(base64_encode(b""), "");
    assert_eq!(base64_encode(b"hello"), "aGVsbG8");
    assert_eq!(base64_encode(&[0xfb, 0xff]), "-_8");
    assert_eq!(base64_decode("aGVsbG8"), Ok(b"hello".to_vec()));
    assert_eq!(base64_decode("-_8"), Ok(vec![0xfb, 0xff]));
}

#[test]
fn base64_errors() {
    assert_eq!(base64_decode("a"), Err(Base64Error::InvalidLength));
    assert_eq!(base64_decode("a*bc"), Err(Base64Error::InvalidByte(1, b'*')));
}

#[test]
fn extension_filter() {
    assert!(has_extension("dir/file.cs", ".cs"));
    assert!(has_extension("a.cs", "a.cs"));
    assert!(!has_extension("dir/file.java", ".cs"));
    assert!(!has_extension("cs", ".cs"));
    assert!(has_extension("anything", ""));
}
