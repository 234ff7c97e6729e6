//! Invoking callbacks that differ in the extra arguments they take.
use vstd::prelude::*;
use vstd::slice::slice_to_vec;
use crate::result::{readable_result, FfiResult, ResultView};
use crate::OpaqueCtx;

verus! {

/// Types that can be passed to a callback as an extra argument. Each has a
/// safe default, handed over on the error path, where the argument must be
/// ignored: zero for numbers, `false`, all-zero bytes, a null pointer
/// (`None`), and the same for each part of a tuple.
pub trait CallbackArgs: Sized {
    /// Whether `self` is the safe default of its type.
    spec fn is_safe_default(&self) -> bool;

    /// Returns the safe default value.
    fn default() -> (r: Self)
        ensures
            r.is_safe_default(),
    ;
}

impl CallbackArgs for () {
    open spec fn is_safe_default(&self) -> bool {
        true
    }

    fn default() -> (r: ()) {
    }
}

impl CallbackArgs for bool {
    open spec fn is_safe_default(&self) -> bool {
        !*self
    }

    fn default() -> (r: bool) {
        false
    }
}

impl CallbackArgs for u32 {
    open spec fn is_safe_default(&self) -> bool {
        *self == 0
    }

    fn default() -> (r: u32) {
        0
    }
}

impl CallbackArgs for i32 {
    open spec fn is_safe_default(&self) -> bool {
        *self == 0
    }

    fn default() -> (r: i32) {
        0
    }
}

impl CallbackArgs for i64 {
    open spec fn is_safe_default(&self) -> bool {
        *self == 0
    }

    fn default() -> (r: i64) {
        0
    }
}

impl CallbackArgs for u64 {
    open spec fn is_safe_default(&self) -> bool {
        *self == 0
    }

    fn default() -> (r: u64) {
        0
    }
}

impl CallbackArgs for usize {
    open spec fn is_safe_default(&self) -> bool {
        *self == 0
    }

    fn default() -> (r: usize) {
        0
    }
}

/// A pointer argument: `None` is the null pointer.
impl<T> CallbackArgs for Option<T> {
    open spec fn is_safe_default(&self) -> bool {
        *self is None
    }

    fn default() -> (r: Option<T>) {
        None
    }
}

impl CallbackArgs for [u8; 32] {
    open spec fn is_safe_default(&self) -> bool {
        forall|i: int| 0 <= i < 32 ==> self@[i] == 0
    }

    fn default() -> (r: [u8; 32]) {
        let r = [0u8; 32];
        assert(forall|i: int| 0 <= i < 32 ==> r@[i] == 0);
        r
    }
}

impl<T0: CallbackArgs, T1: CallbackArgs> CallbackArgs for (T0, T1) {
    open spec fn is_safe_default(&self) -> bool {
        self.0.is_safe_default() && self.1.is_safe_default()
    }

    fn default() -> (r: (T0, T1)) {
        (T0::default(), T1::default())
    }
}

impl<T0: CallbackArgs, T1: CallbackArgs, T2: CallbackArgs> CallbackArgs for (T0, T1, T2) {
    open spec fn is_safe_default(&self) -> bool {
        self.0.is_safe_default() && self.1.is_safe_default() && self.2.is_safe_default()
    }

    fn default() -> (r: (T0, T1, T2)) {
        (T0::default(), T1::default(), T2::default())
    }
}

impl<
    T0: CallbackArgs,
    T1: CallbackArgs,
    T2: CallbackArgs,
    T3: CallbackArgs,
> CallbackArgs for (T0, T1, T2, T3) {
    open spec fn is_safe_default(&self) -> bool {
        self.0.is_safe_default() && self.1.is_safe_default() && self.2.is_safe_default()
            && self.3.is_safe_default()
    }

    fn default() -> (r: (T0, T1, T2, T3)) {
        (T0::default(), T1::default(), T2::default(), T3::default())
    }
}

/// One firing of a callback: the user data, the result and the extra
/// arguments it was called with.
pub struct Firing<A> {
    /// The user data routed back to the callback.
    pub user_data: OpaqueCtx,
    /// The result the callback received.
    pub result: ResultView,
    /// The extra arguments the callback received.
    pub args: A,
}

/// A callback that takes user data, a result and extra arguments `Args`
/// (a tuple for more than one).
pub trait Callback {
    /// The extra arguments of the callback.
    type Args: CallbackArgs;

    /// The firings so far, oldest first.
    spec fn firings(&self) -> Seq<Firing<Self::Args>>;

    /// Whether `args` may be read when they come with a successful result
    /// (for instance: a pointer the callback reads points to valid data).
    /// With an error the arguments are ignored, so any will do.
    spec fn readable_on_success(args: Self::Args) -> bool;

    /// Calls the callback with a result whose description, if any, is
    /// terminated.
    fn call(&mut self, user_data: OpaqueCtx, result: &FfiResult, args: Self::Args)
        requires
            readable_result(result@),
            result.error_code == 0 ==> Self::readable_on_success(args),
        ensures
            final(self).firings() == old(self).firings().push(
                (Firing { user_data, result: result@, args }),
            ),
    ;
}

/// `after` is `before` with one more firing, with `user_data`, `result` and
/// the safe default arguments.
pub open spec fn fired_once_more<A: CallbackArgs>(
    before: Seq<Firing<A>>,
    after: Seq<Firing<A>>,
    user_data: OpaqueCtx,
    result: ResultView,
) -> bool {
    &&& after.len() == before.len() + 1
    &&& after.take(before.len() as int) == before
    &&& after.last().user_data == user_data
    &&& after.last().result == result
    &&& after.last().args.is_safe_default()
}

/// Whether `pending` holds a copy of the last of `fired`, and nothing when
/// there is none.
pub open spec fn holds_last<A>(fired: Seq<Firing<A>>, pending: Option<(FfiResult, A)>) -> bool {
    if fired.len() == 0 {
        pending is None
    } else {
        pending matches Some(p) && p.0@ == fired.last().result && p.1 == fired.last().args
    }
}

/// A callback that keeps a copy of its latest firing, so that the firing
/// can be passed on to a callback across the boundary.
pub struct Pending<A: CallbackArgs> {
    last: Option<(FfiResult, A)>,
    fired: Ghost<Seq<Firing<A>>>,
}

impl<A: CallbackArgs> Pending<A> {
    #[verifier::type_invariant]
    spec fn inv(&self) -> bool {
        holds_last(self.fired@, self.last)
    }

    /// A callback that has not fired.
    pub fn new() -> (r: Pending<A>)
        ensures
            r.firings().len() == 0,
    {
        Pending { last: None, fired: Ghost(Seq::empty()) }
    }

    /// Hands out the copy of the latest firing, if there was one.
    pub fn into_last(self) -> (r: Option<(FfiResult, A)>)
        ensures
            holds_last(self.firings(), r),
    {
        proof {
            use_type_invariant(&self);
        }
        self.last
    }
}

impl<A: CallbackArgs> Callback for Pending<A> {
    type Args = A;

    closed spec fn firings(&self) -> Seq<Firing<A>> {
        self.fired@
    }

    open spec fn readable_on_success(args: A) -> bool {
        true
    }

    fn call(&mut self, user_data: OpaqueCtx, result: &FfiResult, args: A) {
        let ghost fired_now = self.fired@.push(Firing { user_data, result: result@, args });
        let description = match &result.description {
            Some(b) => Some(slice_to_vec(b.as_slice())),
            None => None,
        };
        let copy = FfiResult { error_code: result.error_code, description };
        *self = Pending { last: Some((copy, args)), fired: Ghost(fired_now) };
    }
}

} // verus!
