//! Callbacks that capture what a callback-driven call reported, so that the
//! call can be turned back into a plain return value.
//!
//! Each keeps the reply of its first firing, exactly once, in a one-shot
//! slot: the error code if the call failed, otherwise the extra arguments
//! rebuilt from their boundary shapes. Rebuilding happens inside the
//! callback, before the caller can free or reuse the memory. Later firings
//! are recorded but leave the reply as it is.
use vstd::prelude::*;
use vstd::string::StringExecFns;
use crate::callback::{Callback, Firing};
use crate::repr_c::ReprC;
use crate::result::{readable_result, ResultView, error_result_view, native_rebuilds_to, FfiResult, NativeResult};
use crate::callback::fired_once_more;
use crate::string::StringError;
use crate::{ErrorCode, OpaqueCtx};

verus! {

/// The reply for a result code alone: `Ok` for zero, the code otherwise.
pub open spec fn code_reply(code: i32) -> Result<(), i32> {
    if code == 0 {
        Ok(())
    } else {
        Err(code)
    }
}

/// Whether `reply` is the reply of the first of `fired` for a callback
/// that takes no extra arguments.
pub open spec fn is_first_reply0(fired: Seq<Firing<()>>, reply: Option<Result<(), i32>>) -> bool {
    if fired.len() == 0 {
        reply is None
    } else {
        reply == Some(code_reply(fired[0].result.error_code))
    }
}

/// Captures the reply of a callback that takes no extra arguments.
pub struct Callback0 {
    reply: Option<Result<(), i32>>,
    fired: Ghost<Seq<Firing<()>>>,
}

impl Callback0 {
    #[verifier::type_invariant]
    spec fn inv(&self) -> bool {
        is_first_reply0(self.fired@, self.reply)
    }

    /// A callback that has not fired.
    pub fn new() -> (r: Callback0)
        ensures
            r.firings().len() == 0,
    {
        Callback0 { reply: None, fired: Ghost(Seq::empty()) }
    }

    /// Hands out the reply of the first firing, if there was one.
    pub fn into_reply(self) -> (r: Option<Result<(), i32>>)
        ensures
            is_first_reply0(self.firings(), r),
    {
        proof {
            use_type_invariant(&self);
        }
        self.reply
    }
}

impl Callback for Callback0 {
    type Args = ();

    closed spec fn firings(&self) -> Seq<Firing<()>> {
        self.fired@
    }

    open spec fn readable_on_success(args: ()) -> bool {
        true
    }

    fn call(&mut self, user_data: OpaqueCtx, result: &FfiResult, args: ()) {
        proof {
            use_type_invariant(&*self);
        }
        let ghost fired = self.fired@.push(Firing { user_data, result: result@, args });
        let reply = match self.reply {
            Some(r) => r,
            None => if result.error_code == 0 {
                Ok(())
            } else {
                Err(result.error_code)
            },
        };
        *self = Callback0 { reply: Some(reply), fired: Ghost(fired) };
    }
}

/// Rebuilds the reply to a callback with one extra argument: the code if it
/// is non-zero, otherwise the argument rebuilt from its boundary shape.
pub fn rebuild_1<T: ReprC>(code: i32, arg: &T::C) -> (r: Result<Result<T, T::Error>, i32>)
    requires
        code == 0 ==> T::repr_c_readable(*arg),
    ensures
        is_reply1::<T>(code, *arg, r),
{
    if code == 0 {
        Ok(T::clone_from_repr_c(arg))
    } else {
        Err(code)
    }
}

/// Whether `r` is the reply to a result with `code` and the extra argument
/// `arg`.
pub open spec fn is_reply1<T: ReprC>(code: i32, arg: T::C, r: Result<Result<T, T::Error>, i32>) -> bool {
    if code == 0 {
        r matches Ok(x) && T::rebuilds_to(arg, x)
    } else {
        r == Err::<Result<T, T::Error>, i32>(code)
    }
}

/// Whether `reply` is the reply of the first of `fired` for a callback with
/// one extra argument.
pub open spec fn is_first_reply1<T: ReprC>(
    fired: Seq<Firing<T::C>>,
    reply: Option<Result<Result<T, T::Error>, i32>>,
) -> bool {
    if fired.len() == 0 {
        reply is None
    } else {
        reply matches Some(r) && is_reply1::<T>(fired[0].result.error_code, fired[0].args, r)
    }
}

/// Captures the reply of a callback with one extra argument.
pub struct Callback1<T: ReprC> {
    reply: Option<Result<Result<T, T::Error>, i32>>,
    fired: Ghost<Seq<Firing<T::C>>>,
}

impl<T: ReprC> Callback1<T> {
    #[verifier::type_invariant]
    spec fn inv(&self) -> bool {
        is_first_reply1::<T>(self.fired@, self.reply)
    }

    /// The firings so far, oldest first.
    pub closed spec fn fired_so_far(&self) -> Seq<Firing<T::C>> {
        self.fired@
    }

    /// A callback that has not fired.
    pub fn new() -> (r: Callback1<T>)
        ensures
            r.fired_so_far().len() == 0,
    {
        Callback1 { reply: None, fired: Ghost(Seq::empty()) }
    }

    /// Hands out the reply of the first firing, if there was one.
    pub fn into_reply(self) -> (r: Option<Result<Result<T, T::Error>, i32>>)
        ensures
            is_first_reply1::<T>(self.fired_so_far(), r),
    {
        proof {
            use_type_invariant(&self);
        }
        self.reply
    }
}

impl<T: ReprC> Callback for Callback1<T> where T::C: crate::callback::CallbackArgs {
    type Args = T::C;

    open spec fn firings(&self) -> Seq<Firing<T::C>> {
        self.fired_so_far()
    }

    open spec fn readable_on_success(args: T::C) -> bool {
        T::repr_c_readable(args)
    }

    fn call(&mut self, user_data: OpaqueCtx, result: &FfiResult, args: T::C) {
        let mut prev = Callback1::<T>::new();
        core::mem::swap(self, &mut prev);
        proof {
            use_type_invariant(&prev);
        }
        let Callback1 { reply, fired } = prev;
        let ghost fired_now = fired@.push(Firing { user_data, result: result@, args });
        let reply = match reply {
            Some(r) => r,
            None => rebuild_1::<T>(result.error_code, &args),
        };
        *self = Callback1 { reply: Some(reply), fired: Ghost(fired_now) };
    }
}

/// Whether `r` is the reply to a result with `code` and the extra arguments
/// `args`: the code if it is non-zero, otherwise both arguments rebuilt.
pub open spec fn is_reply2<T0: ReprC, T1: ReprC>(
    code: i32,
    args: (T0::C, T1::C),
    r: Result<(Result<T0, T0::Error>, Result<T1, T1::Error>), i32>,
) -> bool {
    if code == 0 {
        r matches Ok(x) && T0::rebuilds_to(args.0, x.0) && T1::rebuilds_to(args.1, x.1)
    } else {
        r == Err::<(Result<T0, T0::Error>, Result<T1, T1::Error>), i32>(code)
    }
}

/// Rebuilds the reply to a callback with two extra arguments.
pub fn rebuild_2<T0: ReprC, T1: ReprC>(code: i32, args: &(T0::C, T1::C)) -> (r: Result<
    (Result<T0, T0::Error>, Result<T1, T1::Error>),
    i32,
>)
    requires
        code == 0 ==> T0::repr_c_readable(args.0) && T1::repr_c_readable(args.1),
    ensures
        is_reply2::<T0, T1>(code, *args, r),
{
    if code == 0 {
        Ok((T0::clone_from_repr_c(&args.0), T1::clone_from_repr_c(&args.1)))
    } else {
        Err(code)
    }
}

/// Whether `reply` is the reply of the first of `fired` for a callback with
/// two extra arguments.
pub open spec fn is_first_reply2<T0: ReprC, T1: ReprC>(
    fired: Seq<Firing<(T0::C, T1::C)>>,
    reply: Option<Result<(Result<T0, T0::Error>, Result<T1, T1::Error>), i32>>,
) -> bool {
    if fired.len() == 0 {
        reply is None
    } else {
        reply matches Some(r) && is_reply2::<T0, T1>(fired[0].result.error_code, fired[0].args, r)
    }
}

/// Captures the reply of a callback with two extra arguments.
pub struct Callback2<T0: ReprC, T1: ReprC> {
    reply: Option<Result<(Result<T0, T0::Error>, Result<T1, T1::Error>), i32>>,
    fired: Ghost<Seq<Firing<(T0::C, T1::C)>>>,
}

impl<T0: ReprC, T1: ReprC> Callback2<T0, T1> {
    #[verifier::type_invariant]
    spec fn inv(&self) -> bool {
        is_first_reply2::<T0, T1>(self.fired@, self.reply)
    }

    /// The firings so far, oldest first.
    pub closed spec fn fired_so_far(&self) -> Seq<Firing<(T0::C, T1::C)>> {
        self.fired@
    }

    /// A callback that has not fired.
    pub fn new() -> (r: Callback2<T0, T1>)
        ensures
            r.fired_so_far().len() == 0,
    {
        Callback2 { reply: None, fired: Ghost(Seq::empty()) }
    }

    /// Hands out the reply of the first firing, if there was one.
    pub fn into_reply(self) -> (r: Option<Result<(Result<T0, T0::Error>, Result<T1, T1::Error>), i32>>)
        ensures
            is_first_reply2::<T0, T1>(self.fired_so_far(), r),
    {
        proof {
            use_type_invariant(&self);
        }
        self.reply
    }
}

impl<T0: ReprC, T1: ReprC> Callback for Callback2<T0, T1> where
    T0::C: crate::callback::CallbackArgs,
    T1::C: crate::callback::CallbackArgs,
 {
    type Args = (T0::C, T1::C);

    open spec fn firings(&self) -> Seq<Firing<(T0::C, T1::C)>> {
        self.fired_so_far()
    }

    open spec fn readable_on_success(args: (T0::C, T1::C)) -> bool {
        T0::repr_c_readable(args.0) && T1::repr_c_readable(args.1)
    }

    fn call(&mut self, user_data: OpaqueCtx, result: &FfiResult, args: (T0::C, T1::C)) {
        let mut prev = Callback2::<T0, T1>::new();
        core::mem::swap(self, &mut prev);
        proof {
            use_type_invariant(&prev);
        }
        let Callback2 { reply, fired } = prev;
        let ghost fired_now = fired@.push(Firing { user_data, result: result@, args });
        let reply = match reply {
            Some(r) => r,
            None => rebuild_2::<T0, T1>(result.error_code, &args),
        };
        *self = Callback2 { reply: Some(reply), fired: Ghost(fired_now) };
    }
}

/// Whether `n` elements can be read from the array `elems` (`None` is a
/// null pointer, from which nothing can be read).
pub open spec fn array_readable<A>(elems: Option<Vec<A>>, n: usize) -> bool {
    match elems {
        Some(v) => n <= v@.len(),
        None => n == 0,
    }
}

/// The elements of an array as a sequence; a null pointer gives none.
pub open spec fn array_view<A>(elems: Option<Vec<A>>) -> Seq<A> {
    match elems {
        Some(v) => v@,
        None => Seq::empty(),
    }
}

/// Whether `r` is the reply to a result with `code` and the array of the
/// first `n` of `elems`: the code if it is non-zero, otherwise each element
/// rebuilt, in order, or the error of the first that could not be.
pub open spec fn is_reply_vec<T: ReprC>(
    code: i32,
    elems: Seq<T::C>,
    n: usize,
    r: Result<Result<Vec<T>, T::Error>, i32>,
) -> bool {
    if code == 0 {
        match r {
            Ok(Ok(v)) => v@.len() == n && forall|i: int|
                #![trigger v@[i]]
                0 <= i < n ==> T::rebuilds_to(elems[i], Ok::<T, T::Error>(v@[i])),
            Ok(Err(e)) => exists|i: int| 0 <= i < n && T::rebuilds_to(elems[i], Err::<T, T::Error>(e)),
            Err(_) => false,
        }
    } else {
        r == Err::<Result<Vec<T>, T::Error>, i32>(code)
    }
}

/// Rebuilds the reply to a callback with an array of `n` boundary values,
/// copying every element out of the array.
pub fn rebuild_vec<T: ReprC>(code: i32, elems: &Option<Vec<T::C>>, n: usize) -> (r: Result<
    Result<Vec<T>, T::Error>,
    i32,
>)
    requires
        code == 0 ==> array_readable(*elems, n),
        code == 0 ==> forall|i: int| 0 <= i < n ==> T::repr_c_readable(#[trigger] array_view(*elems)[i]),
    ensures
        is_reply_vec::<T>(code, array_view(*elems), n, r),
{
    if code != 0 {
        return Err(code);
    }
    let mut out: Vec<T> = Vec::with_capacity(n);
    match elems {
        None => Ok(Ok(out)),
        Some(v) => {
            assert(array_view(*elems) == v@);
            let mut i: usize = 0;
            while i < n
                invariant
                    code == 0,
                    n <= v@.len(),
                    *elems == Some(*v),
                    forall|k: int| 0 <= k < n ==> T::repr_c_readable(#[trigger] v@[k]),
                    i <= n,
                    out@.len() == i,
                    forall|k: int| #![trigger out@[k]] 0 <= k < i ==> T::rebuilds_to(v@[k], Ok::<T, T::Error>(out@[k])),
                decreases n - i,
            {
                assert(T::repr_c_readable(v@[i as int]));
                match T::clone_from_repr_c(&v[i]) {
                    Ok(x) => out.push(x),
                    Err(e) => {
                        assert(T::rebuilds_to(array_view(*elems)[i as int], Err::<T, T::Error>(e)));
                        return Ok(Err(e));
                    },
                }
                i = i + 1;
            }
            Ok(Ok(out))
        },
    }
}

/// Whether `reply` is the reply of the first of `fired` for a callback with
/// an array argument.
pub open spec fn is_first_reply_vec<T: ReprC>(
    fired: Seq<Firing<(Option<Vec<T::C>>, usize)>>,
    reply: Option<Result<Result<Vec<T>, T::Error>, i32>>,
) -> bool {
    if fired.len() == 0 {
        reply is None
    } else {
        reply matches Some(r) && is_reply_vec::<T>(
            fired[0].result.error_code,
            array_view(fired[0].args.0),
            fired[0].args.1,
            r,
        )
    }
}

/// Captures the reply of a callback with an array argument and its length.
pub struct CallbackVec<T: ReprC> {
    reply: Option<Result<Result<Vec<T>, T::Error>, i32>>,
    fired: Ghost<Seq<Firing<(Option<Vec<T::C>>, usize)>>>,
}

impl<T: ReprC> CallbackVec<T> {
    #[verifier::type_invariant]
    spec fn inv(&self) -> bool {
        is_first_reply_vec::<T>(self.fired@, self.reply)
    }

    /// The firings so far, oldest first.
    pub closed spec fn fired_so_far(&self) -> Seq<Firing<(Option<Vec<T::C>>, usize)>> {
        self.fired@
    }

    /// A callback that has not fired.
    pub fn new() -> (r: CallbackVec<T>)
        ensures
            r.fired_so_far().len() == 0,
    {
        CallbackVec { reply: None, fired: Ghost(Seq::empty()) }
    }

    /// Hands out the reply of the first firing, if there was one.
    pub fn into_reply(self) -> (r: Option<Result<Result<Vec<T>, T::Error>, i32>>)
        ensures
            is_first_reply_vec::<T>(self.fired_so_far(), r),
    {
        proof {
            use_type_invariant(&self);
        }
        self.reply
    }
}

impl<T: ReprC> Callback for CallbackVec<T> {
    type Args = (Option<Vec<T::C>>, usize);

    open spec fn firings(&self) -> Seq<Firing<(Option<Vec<T::C>>, usize)>> {
        self.fired_so_far()
    }

    open spec fn readable_on_success(args: (Option<Vec<T::C>>, usize)) -> bool {
        &&& array_readable(args.0, args.1)
        &&& forall|i: int| 0 <= i < args.1 ==> T::repr_c_readable(#[trigger] array_view(args.0)[i])
    }

    fn call(&mut self, user_data: OpaqueCtx, result: &FfiResult, args: (Option<Vec<T::C>>, usize)) {
        let mut prev = CallbackVec::<T>::new();
        core::mem::swap(self, &mut prev);
        proof {
            use_type_invariant(&prev);
        }
        let CallbackVec { reply, fired } = prev;
        let ghost fired_now = fired@.push(Firing { user_data, result: result@, args });
        let reply = match reply {
            Some(r) => r,
            None => rebuild_vec::<T>(result.error_code, &args.0, args.1),
        };
        *self = CallbackVec { reply: Some(reply), fired: Ghost(fired_now) };
    }
}

/// Whether `r` is the reply to a result with `code` and the first `n` of
/// `bytes`: the code if it is non-zero, otherwise a copy of those bytes.
pub open spec fn is_reply_bytes(code: i32, bytes: Seq<u8>, n: usize, r: Result<Vec<u8>, i32>) -> bool {
    if code == 0 {
        r matches Ok(v) && v@ == bytes.take(n as int)
    } else {
        r == Err::<Vec<u8>, i32>(code)
    }
}

/// Rebuilds the reply to a callback with a byte array of length `n`,
/// copying the bytes out of the array.
pub fn rebuild_vec_u8(code: i32, bytes: &Option<Vec<u8>>, n: usize) -> (r: Result<Vec<u8>, i32>)
    requires
        code == 0 ==> array_readable(*bytes, n),
    ensures
        is_reply_bytes(code, array_view(*bytes), n, r),
{
    if code != 0 {
        return Err(code);
    }
    let mut out: Vec<u8> = Vec::with_capacity(n);
    match bytes {
        None => {
            assert(out@ =~= array_view(*bytes).take(n as int));
            Ok(out)
        },
        Some(v) => {
            let mut i: usize = 0;
            while i < n
                invariant
                    n <= v@.len(),
                    i <= n,
                    out@ == v@.take(i as int),
                decreases n - i,
            {
                out.push(v[i]);
                i = i + 1;
                assert(out@ =~= v@.take(i as int));
            }
            Ok(out)
        },
    }
}

/// Whether `reply` is the reply of the first of `fired` for a callback with
/// a byte array argument.
pub open spec fn is_first_reply_bytes(
    fired: Seq<Firing<(Option<Vec<u8>>, usize)>>,
    reply: Option<Result<Vec<u8>, i32>>,
) -> bool {
    if fired.len() == 0 {
        reply is None
    } else {
        reply matches Some(r) && is_reply_bytes(
            fired[0].result.error_code,
            array_view(fired[0].args.0),
            fired[0].args.1,
            r,
        )
    }
}

/// Captures the reply of a callback with a byte array argument and its
/// length.
pub struct CallbackVecU8 {
    reply: Option<Result<Vec<u8>, i32>>,
    fired: Ghost<Seq<Firing<(Option<Vec<u8>>, usize)>>>,
}

impl CallbackVecU8 {
    #[verifier::type_invariant]
    spec fn inv(&self) -> bool {
        is_first_reply_bytes(self.fired@, self.reply)
    }

    /// A callback that has not fired.
    pub fn new() -> (r: CallbackVecU8)
        ensures
            r.firings().len() == 0,
    {
        CallbackVecU8 { reply: None, fired: Ghost(Seq::empty()) }
    }

    /// Hands out the reply of the first firing, if there was one.
    pub fn into_reply(self) -> (r: Option<Result<Vec<u8>, i32>>)
        ensures
            is_first_reply_bytes(self.firings(), r),
    {
        proof {
            use_type_invariant(&self);
        }
        self.reply
    }
}

impl Callback for CallbackVecU8 {
    type Args = (Option<Vec<u8>>, usize);

    closed spec fn firings(&self) -> Seq<Firing<(Option<Vec<u8>>, usize)>> {
        self.fired@
    }

    open spec fn readable_on_success(args: (Option<Vec<u8>>, usize)) -> bool {
        array_readable(args.0, args.1)
    }

    fn call(&mut self, user_data: OpaqueCtx, result: &FfiResult, args: (Option<Vec<u8>>, usize)) {
        let mut prev = CallbackVecU8::new();
        core::mem::swap(self, &mut prev);
        proof {
            use_type_invariant(&prev);
        }
        let CallbackVecU8 { reply, fired } = prev;
        let ghost fired_now = fired@.push(Firing { user_data, result: result@, args });
        let reply = match reply {
            Some(r) => r,
            None => rebuild_vec_u8(result.error_code, &args.0, args.1),
        };
        *self = CallbackVecU8 { reply: Some(reply), fired: Ghost(fired_now) };
    }
}

/// An error type for exercising the boundary: `Test` has code -1, an error
/// made from a message has code -2 and that message as its description.
#[derive(Debug)]
pub enum TestError {
    /// Error from a string.
    FromStr(String),
    /// Simple test error.
    Test,
}

impl<'a> From<&'a str> for TestError {
    fn from(s: &'a str) -> (r: TestError)
        ensures
            r matches TestError::FromStr(m) && m@ == s@,
    {
        TestError::FromStr(s.to_owned())
    }
}

/// The text of a `String` cannot be written down in a spec, so no spec
/// function claims to be what `from` returns (`obeys_from_spec` is false);
/// `from`'s own `ensures` says what it gives.
impl<'a> vstd::std_specs::convert::FromSpecImpl<&'a str> for TestError {
    open spec fn obeys_from_spec() -> bool {
        false
    }

    /// Not what `from` returns (that is `FromStr` with the text of `s`);
    /// never relied on, since `obeys_from_spec` is false.
    open spec fn from_spec(s: &'a str) -> TestError {
        TestError::Test
    }
}

impl ErrorCode for TestError {
    open spec fn code_spec(&self) -> i32 {
        match self {
            TestError::Test => -1i32,
            TestError::FromStr(_) => -2i32,
        }
    }

    open spec fn description_spec(&self) -> Seq<char> {
        match self {
            TestError::Test => "Test Error"@,
            TestError::FromStr(s) => s@,
        }
    }

    fn error_code(&self) -> (r: i32) {
        match self {
            TestError::Test => -1,
            TestError::FromStr(_) => -2,
        }
    }

    fn description(&self) -> (r: String) {
        match self {
            TestError::Test => String::from_str("Test Error"),
            TestError::FromStr(s) => s.clone(),
        }
    }
}

/// The error that a caught panic becomes has code -2 and the description
/// `"panic"`.
pub proof fn lemma_test_error_from_panic(e: TestError)
    requires
        call_ensures(<TestError as From<&'static str>>::from, ("panic",), e),
    ensures
        e matches TestError::FromStr(m) && m@ == "panic"@,
        e.code_spec() == -2,
        e.description_spec() == "panic"@,
{
}

/// Whether `r` is the reply to a result `res` and the extra argument `arg`
/// that keeps the whole result on failure: the argument rebuilt if the code
/// is zero, otherwise the native form of the result, rebuilt.
pub open spec fn is_result_reply1<T: ReprC>(
    res: ResultView,
    arg: T::C,
    r: Result<Result<T, T::Error>, Result<NativeResult, StringError>>,
) -> bool {
    if res.error_code == 0 {
        r matches Ok(x) && T::rebuilds_to(arg, x)
    } else {
        r matches Err(n) && native_rebuilds_to(res, n)
    }
}

/// Rebuilds the reply to a callback with one extra argument, keeping the
/// native form of the result (code and description) on failure.
pub fn rebuild_result_1<T: ReprC>(res: &FfiResult, arg: &T::C) -> (r: Result<
    Result<T, T::Error>,
    Result<NativeResult, StringError>,
>)
    requires
        readable_result(res@),
        res.error_code == 0 ==> T::repr_c_readable(*arg),
    ensures
        is_result_reply1::<T>(res@, *arg, r),
{
    if res.error_code == 0 {
        Ok(T::clone_from_repr_c(arg))
    } else {
        Err(NativeResult::clone_from_repr_c(res))
    }
}

/// Whether `reply` is the reply of the first of `fired` for a callback with
/// one extra argument that keeps the whole result on failure.
pub open spec fn is_first_result_reply1<T: ReprC>(
    fired: Seq<Firing<T::C>>,
    reply: Option<Result<Result<T, T::Error>, Result<NativeResult, StringError>>>,
) -> bool {
    if fired.len() == 0 {
        reply is None
    } else {
        reply matches Some(r) && is_result_reply1::<T>(fired[0].result, fired[0].args, r)
    }
}

/// Captures the reply of a callback with one extra argument; on failure it
/// keeps the code and the description the callback received.
pub struct CallbackFfiResult1<T: ReprC> {
    reply: Option<Result<Result<T, T::Error>, Result<NativeResult, StringError>>>,
    fired: Ghost<Seq<Firing<T::C>>>,
}

impl<T: ReprC> CallbackFfiResult1<T> {
    #[verifier::type_invariant]
    spec fn inv(&self) -> bool {
        is_first_result_reply1::<T>(self.fired@, self.reply)
    }

    /// The firings so far, oldest first.
    pub closed spec fn fired_so_far(&self) -> Seq<Firing<T::C>> {
        self.fired@
    }

    /// A callback that has not fired.
    pub fn new() -> (r: CallbackFfiResult1<T>)
        ensures
            r.fired_so_far().len() == 0,
    {
        CallbackFfiResult1 { reply: None, fired: Ghost(Seq::empty()) }
    }

    /// Hands out the reply of the first firing, if there was one.
    pub fn into_reply(self) -> (r: Option<Result<Result<T, T::Error>, Result<NativeResult, StringError>>>)
        ensures
            is_first_result_reply1::<T>(self.fired_so_far(), r),
    {
        proof {
            use_type_invariant(&self);
        }
        self.reply
    }
}

impl<T: ReprC> Callback for CallbackFfiResult1<T> where T::C: crate::callback::CallbackArgs {
    type Args = T::C;

    open spec fn firings(&self) -> Seq<Firing<T::C>> {
        self.fired_so_far()
    }

    open spec fn readable_on_success(args: T::C) -> bool {
        T::repr_c_readable(args)
    }

    fn call(&mut self, user_data: OpaqueCtx, result: &FfiResult, args: T::C) {
        let mut prev = CallbackFfiResult1::<T>::new();
        core::mem::swap(self, &mut prev);
        proof {
            use_type_invariant(&prev);
        }
        let CallbackFfiResult1 { reply, fired } = prev;
        let ghost fired_now = fired@.push(Firing { user_data, result: result@, args });
        let reply = match reply {
            Some(r) => r,
            None => rebuild_result_1::<T>(result, &args),
        };
        *self = CallbackFfiResult1 { reply: Some(reply), fired: Ghost(fired_now) };
    }
}

/// A callback with no extra arguments whose first firing reports a caught
/// panic of `TestError` replies `Err(-2)`.
pub proof fn lemma_panic_reply0(
    fired: Seq<Firing<()>>,
    user_data: OpaqueCtx,
    e: TestError,
    reply: Option<Result<(), i32>>,
)
    requires
        call_ensures(<TestError as From<&'static str>>::from, ("panic",), e),
        fired_once_more(
            Seq::empty(),
            fired,
            user_data,
            error_result_view(e.code_spec(), e.description_spec()),
        ),
        is_first_reply0(fired, reply),
    ensures
        reply == Some(Err::<(), i32>(-2i32)),
{
    lemma_test_error_from_panic(e);
}

/// A callback with one extra argument whose first firing reports a caught
/// panic of `TestError` replies `Err(-2)`, whatever the argument's type.
pub proof fn lemma_panic_reply1<T: ReprC>(
    fired: Seq<Firing<T::C>>,
    user_data: OpaqueCtx,
    e: TestError,
    reply: Option<Result<Result<T, T::Error>, i32>>,
)
    requires
        call_ensures(<TestError as From<&'static str>>::from, ("panic",), e),
        fired.len() == 1,
        fired[0].result == error_result_view(e.code_spec(), e.description_spec()),
        is_first_reply1::<T>(fired, reply),
    ensures
        reply == Some(Err::<Result<T, T::Error>, i32>(-2i32)),
{
    lemma_test_error_from_panic(e);
}

} // verus!
