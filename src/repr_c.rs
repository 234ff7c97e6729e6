//! Conversions between native values and their boundary shapes.
//!
//! Scalars cross the boundary as themselves, `bool` as a `u32`, and
//! fixed-size byte arrays as a copy of their bytes. Characters and 128-bit
//! integers have no stable boundary shape and get no conversion.
use vstd::prelude::*;

verus! {

/// A native type with a boundary shape `C` from which a native value can be
/// rebuilt by copying.
pub trait ReprC: Sized {
    /// The boundary shape of the type.
    type C;
    /// What can go wrong when rebuilding a native value.
    type Error;

    /// Whether `repr_c` is a boundary value that may be read at all (for
    /// text: it ends in a terminator). The foreign side vouches for this.
    spec fn repr_c_readable(repr_c: Self::C) -> bool;

    /// Tells whether `repr_c` may be read.
    fn is_readable(repr_c: &Self::C) -> (r: bool)
        ensures
            r == Self::repr_c_readable(*repr_c),
    ;

    /// Whether `r` is what `repr_c` rebuilds to.
    spec fn rebuilds_to(repr_c: Self::C, r: Result<Self, Self::Error>) -> bool;

    /// Rebuilds a native value by copying from its boundary shape, which
    /// stays with its owner.
    fn clone_from_repr_c(repr_c: &Self::C) -> (r: Result<Self, Self::Error>)
        requires
            Self::repr_c_readable(*repr_c),
        ensures
            Self::rebuilds_to(*repr_c, r),
    ;
}

/// A type whose boundary shape can always be built and always rebuilds to
/// the same value: rebuilding what `to_repr_c` gave succeeds and yields the
/// value itself.
pub trait LosslessReprC: ReprC {
    /// Gives the boundary shape of `self`.
    fn to_repr_c(&self) -> (c: Self::C)
        ensures
            Self::repr_c_readable(c),
            forall|r: Result<Self, Self::Error>|
                Self::rebuilds_to(c, r) <==> r == Ok::<Self, Self::Error>(*self),
    ;
}

impl ReprC for i32 {
    type C = i32;
    type Error = ();

    open spec fn repr_c_readable(repr_c: i32) -> bool {
        true
    }

    open spec fn rebuilds_to(repr_c: i32, r: Result<i32, ()>) -> bool {
        r == Ok::<i32, ()>(repr_c)
    }

    fn is_readable(repr_c: &i32) -> (r: bool) {
        true
    }

    fn clone_from_repr_c(repr_c: &i32) -> (r: Result<i32, ()>) {
        Ok(*repr_c)
    }
}

impl LosslessReprC for i32 {
    fn to_repr_c(&self) -> (c: i32) {
        *self
    }
}

impl ReprC for i64 {
    type C = i64;
    type Error = ();

    open spec fn repr_c_readable(repr_c: i64) -> bool {
        true
    }

    open spec fn rebuilds_to(repr_c: i64, r: Result<i64, ()>) -> bool {
        r == Ok::<i64, ()>(repr_c)
    }

    fn is_readable(repr_c: &i64) -> (r: bool) {
        true
    }

    fn clone_from_repr_c(repr_c: &i64) -> (r: Result<i64, ()>) {
        Ok(*repr_c)
    }
}

impl LosslessReprC for i64 {
    fn to_repr_c(&self) -> (c: i64) {
        *self
    }
}

impl ReprC for u32 {
    type C = u32;
    type Error = ();

    open spec fn repr_c_readable(repr_c: u32) -> bool {
        true
    }

    open spec fn rebuilds_to(repr_c: u32, r: Result<u32, ()>) -> bool {
        r == Ok::<u32, ()>(repr_c)
    }

    fn is_readable(repr_c: &u32) -> (r: bool) {
        true
    }

    fn clone_from_repr_c(repr_c: &u32) -> (r: Result<u32, ()>) {
        Ok(*repr_c)
    }
}

impl LosslessReprC for u32 {
    fn to_repr_c(&self) -> (c: u32) {
        *self
    }
}

impl ReprC for u64 {
    type C = u64;
    type Error = ();

    open spec fn repr_c_readable(repr_c: u64) -> bool {
        true
    }

    open spec fn rebuilds_to(repr_c: u64, r: Result<u64, ()>) -> bool {
        r == Ok::<u64, ()>(repr_c)
    }

    fn is_readable(repr_c: &u64) -> (r: bool) {
        true
    }

    fn clone_from_repr_c(repr_c: &u64) -> (r: Result<u64, ()>) {
        Ok(*repr_c)
    }
}

impl LosslessReprC for u64 {
    fn to_repr_c(&self) -> (c: u64) {
        *self
    }
}

impl ReprC for usize {
    type C = usize;
    type Error = ();

    open spec fn repr_c_readable(repr_c: usize) -> bool {
        true
    }

    open spec fn rebuilds_to(repr_c: usize, r: Result<usize, ()>) -> bool {
        r == Ok::<usize, ()>(repr_c)
    }

    fn is_readable(repr_c: &usize) -> (r: bool) {
        true
    }

    fn clone_from_repr_c(repr_c: &usize) -> (r: Result<usize, ()>) {
        Ok(*repr_c)
    }
}

impl LosslessReprC for usize {
    fn to_repr_c(&self) -> (c: usize) {
        *self
    }
}

/// `bool` has no reliable boundary layout, so it crosses as a `u32`: zero is
/// `false`, anything else `true`.
impl ReprC for bool {
    type C = u32;
    type Error = ();

    open spec fn repr_c_readable(repr_c: u32) -> bool {
        true
    }

    open spec fn rebuilds_to(repr_c: u32, r: Result<bool, ()>) -> bool {
        r == Ok::<bool, ()>(repr_c != 0)
    }

    fn is_readable(repr_c: &u32) -> (r: bool) {
        true
    }

    fn clone_from_repr_c(repr_c: &u32) -> (r: Result<bool, ()>) {
        Ok(*repr_c != 0)
    }
}

impl LosslessReprC for bool {
    fn to_repr_c(&self) -> (c: u32) {
        if *self {
            1
        } else {
            0
        }
    }
}

impl ReprC for [u8; 24] {
    type C = [u8; 24];
    type Error = ();

    open spec fn repr_c_readable(repr_c: [u8; 24]) -> bool {
        true
    }

    open spec fn rebuilds_to(repr_c: [u8; 24], r: Result<[u8; 24], ()>) -> bool {
        r == Ok::<[u8; 24], ()>(repr_c)
    }

    fn is_readable(repr_c: &[u8; 24]) -> (r: bool) {
        true
    }

    fn clone_from_repr_c(repr_c: &[u8; 24]) -> (r: Result<[u8; 24], ()>) {
        Ok(*repr_c)
    }
}

impl LosslessReprC for [u8; 24] {
    fn to_repr_c(&self) -> (c: [u8; 24]) {
        *self
    }
}

impl ReprC for [u8; 32] {
    type C = [u8; 32];
    type Error = ();

    open spec fn repr_c_readable(repr_c: [u8; 32]) -> bool {
        true
    }

    open spec fn rebuilds_to(repr_c: [u8; 32], r: Result<[u8; 32], ()>) -> bool {
        r == Ok::<[u8; 32], ()>(repr_c)
    }

    fn is_readable(repr_c: &[u8; 32]) -> (r: bool) {
        true
    }

    fn clone_from_repr_c(repr_c: &[u8; 32]) -> (r: Result<[u8; 32], ()>) {
        Ok(*repr_c)
    }
}

impl LosslessReprC for [u8; 32] {
    fn to_repr_c(&self) -> (c: [u8; 32]) {
        *self
    }
}

impl ReprC for [u8; 48] {
    type C = [u8; 48];
    type Error = ();

    open spec fn repr_c_readable(repr_c: [u8; 48]) -> bool {
        true
    }

    open spec fn rebuilds_to(repr_c: [u8; 48], r: Result<[u8; 48], ()>) -> bool {
        r == Ok::<[u8; 48], ()>(repr_c)
    }

    fn is_readable(repr_c: &[u8; 48]) -> (r: bool) {
        true
    }

    fn clone_from_repr_c(repr_c: &[u8; 48]) -> (r: Result<[u8; 48], ()>) {
        Ok(*repr_c)
    }
}

impl LosslessReprC for [u8; 48] {
    fn to_repr_c(&self) -> (c: [u8; 48]) {
        *self
    }
}

impl ReprC for [u8; 64] {
    type C = [u8; 64];
    type Error = ();

    open spec fn repr_c_readable(repr_c: [u8; 64]) -> bool {
        true
    }

    open spec fn rebuilds_to(repr_c: [u8; 64], r: Result<[u8; 64], ()>) -> bool {
        r == Ok::<[u8; 64], ()>(repr_c)
    }

    fn is_readable(repr_c: &[u8; 64]) -> (r: bool) {
        true
    }

    fn clone_from_repr_c(repr_c: &[u8; 64]) -> (r: Result<[u8; 64], ()>) {
        Ok(*repr_c)
    }
}

impl LosslessReprC for [u8; 64] {
    fn to_repr_c(&self) -> (c: [u8; 64]) {
        *self
    }
}

impl ReprC for [u8; 96] {
    type C = [u8; 96];
    type Error = ();

    open spec fn repr_c_readable(repr_c: [u8; 96]) -> bool {
        true
    }

    open spec fn rebuilds_to(repr_c: [u8; 96], r: Result<[u8; 96], ()>) -> bool {
        r == Ok::<[u8; 96], ()>(repr_c)
    }

    fn is_readable(repr_c: &[u8; 96]) -> (r: bool) {
        true
    }

    fn clone_from_repr_c(repr_c: &[u8; 96]) -> (r: Result<[u8; 96], ()>) {
        Ok(*repr_c)
    }
}

impl LosslessReprC for [u8; 96] {
    fn to_repr_c(&self) -> (c: [u8; 96]) {
        *self
    }
}

} // verus!
