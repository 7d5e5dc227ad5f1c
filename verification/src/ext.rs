//! Extension traits for arrays and slices.

use vstd::prelude::*;
use vstd::slice::slice_subrange;

verus! {

/// Extension trait for arrays.
pub trait ArrayExt<T, const N: usize>: Sized {
    /// The element at the given position.
    spec fn el(self, i: int) -> T;

    /// Apply a fallible function to every element in order, short-circuiting
    /// on the first error.
    fn try_map_ext<U, E, F: Fn(T) -> Result<U, E>>(self, f: F) -> (r: Result<[U; N], E>)
        requires
            forall|i: int| 0 <= i < N ==> call_requires(f, (self.el(i),)),
        ensures
            r matches Ok(us) ==> forall|i: int|
                0 <= i < N ==> call_ensures(f, (self.el(i),), Ok(#[trigger] us[i])),
            r matches Err(e) ==> exists|i: int|
                #![trigger self.el(i)]
                0 <= i < N && call_ensures(f, (self.el(i),), Err(e)) && (forall|j: int|
                    0 <= j < i ==> exists|y: U| call_ensures(f, (#[trigger] self.el(j),), Ok(y))),
    ;

    /// Pair the elements of two arrays position by position.
    fn zip_ext<U>(self, rhs: [U; N]) -> (r: [(T, U); N]) where U: Copy
        ensures
            forall|i: int| 0 <= i < N ==> #[trigger] r[i] == (self.el(i), rhs[i]),
    ;
}

impl<T: Copy> ArrayExt<T, 2> for [T; 2] {
    open spec fn el(self, i: int) -> T {
        self[i]
    }

    fn try_map_ext<U, E, F: Fn(T) -> Result<U, E>>(self, f: F) -> (r: Result<[U; 2], E>) {
        proof {
            assert(self.el(0) == self[0]);
            assert(self.el(1) == self[1]);
        }
        let a = match f(self[0]) {
            Ok(v) => v,
            Err(e) => {
                proof {
                    assert(call_ensures(f, (self.el(0),), Err::<U, E>(e)));
                }
                return Err(e);
            },
        };
        let b = match f(self[1]) {
            Ok(v) => v,
            Err(e) => {
                proof {
                    assert(call_ensures(f, (self.el(1),), Err::<U, E>(e)));
                    assert(call_ensures(f, (self.el(0),), Ok::<U, E>(a)));
                }
                return Err(e);
            },
        };
        Ok([a, b])
    }

    fn zip_ext<U>(self, rhs: [U; 2]) -> (r: [(T, U); 2]) where U: Copy {
        [(self[0], rhs[0]), (self[1], rhs[1])]
    }
}

impl<T: Copy> ArrayExt<T, 4> for [T; 4] {
    open spec fn el(self, i: int) -> T {
        self[i]
    }

    fn try_map_ext<U, E, F: Fn(T) -> Result<U, E>>(self, f: F) -> (r: Result<[U; 4], E>) {
        proof {
            assert(self.el(0) == self[0]);
            assert(self.el(1) == self[1]);
            assert(self.el(2) == self[2]);
            assert(self.el(3) == self[3]);
        }
        let a = match f(self[0]) {
            Ok(v) => v,
            Err(e) => {
                proof {
                    assert(call_ensures(f, (self.el(0),), Err::<U, E>(e)));
                }
                return Err(e);
            },
        };
        let b = match f(self[1]) {
            Ok(v) => v,
            Err(e) => {
                proof {
                    assert(call_ensures(f, (self.el(1),), Err::<U, E>(e)));
                    assert(call_ensures(f, (self.el(0),), Ok::<U, E>(a)));
                }
                return Err(e);
            },
        };
        let c = match f(self[2]) {
            Ok(v) => v,
            Err(e) => {
                proof {
                    assert(call_ensures(f, (self.el(2),), Err::<U, E>(e)));
                    assert(call_ensures(f, (self.el(0),), Ok::<U, E>(a)));
                    assert(call_ensures(f, (self.el(1),), Ok::<U, E>(b)));
                }
                return Err(e);
            },
        };
        let d = match f(self[3]) {
            Ok(v) => v,
            Err(e) => {
                proof {
                    assert(call_ensures(f, (self.el(3),), Err::<U, E>(e)));
                    assert(call_ensures(f, (self.el(0),), Ok::<U, E>(a)));
                    assert(call_ensures(f, (self.el(1),), Ok::<U, E>(b)));
                    assert(call_ensures(f, (self.el(2),), Ok::<U, E>(c)));
                }
                return Err(e);
            },
        };
        Ok([a, b, c, d])
    }

    fn zip_ext<U>(self, rhs: [U; 4]) -> (r: [(T, U); 4]) where U: Copy {
        [(self[0], rhs[0]), (self[1], rhs[1]), (self[2], rhs[2]), (self[3], rhs[3])]
    }
}

/// Extension trait for slices.
pub trait SliceExt<T>: Sized {
    /// Walk the slice in non-overlapping runs of the given length.
    fn array_chunks_ext<'a>(&'a self, n: usize) -> (r: ArrayChunks<'a, T>);

    /// Walk the slice in overlapping windows of the given length.
    fn array_windows_ext<'a>(&'a self, n: usize) -> (r: ArrayWindows<'a, T>);
}

impl<T> SliceExt<T> for &[T] {
    fn array_chunks_ext<'a>(&'a self, n: usize) -> (r: ArrayChunks<'a, T>) {
        ArrayChunks { slice: self, index: 0, n }
    }

    fn array_windows_ext<'a>(&'a self, n: usize) -> (r: ArrayWindows<'a, T>) {
        ArrayWindows { slice: self, index: 0, n }
    }
}

/// Walks a slice in non-overlapping runs of a fixed length.
pub struct ArrayChunks<'a, T> {
    /// The underlying slice.
    pub slice: &'a [T],
    /// Where the next run starts.
    pub index: usize,
    /// The length of each run.
    pub n: usize,
}

impl<'a, T> ArrayChunks<'a, T> {
    /// The next run of `n` elements, or `None` when fewer than `n` are
    /// left.
    pub fn next(&mut self) -> (r: Option<&'a [T]>)
        ensures
            old(self).index + old(self).n > old(self).slice@.len() || old(self).n == 0 ==> r
                is None && *final(self) == *old(self),
            old(self).index + old(self).n <= old(self).slice@.len() && old(self).n > 0 ==> (
            r matches Some(s) && s@ == old(self).slice@.subrange(
                old(self).index as int,
                old(self).index + old(self).n,
            ) && final(self).index == old(self).index + old(self).n && final(self).slice == old(
                self,
            ).slice && final(self).n == old(self).n),
    {
        if self.n == 0 || self.slice.len() < self.n || self.index > self.slice.len() - self.n {
            return None;
        }
        let next = slice_subrange(self.slice, self.index, self.index + self.n);
        self.index = self.index + self.n;
        Some(next)
    }
}

/// Walks a slice in overlapping windows of a fixed length.
pub struct ArrayWindows<'a, T> {
    /// The underlying slice.
    pub slice: &'a [T],
    /// Where the next window starts.
    pub index: usize,
    /// The length of each window.
    pub n: usize,
}

impl<'a, T> ArrayWindows<'a, T> {
    /// The next window of `n` elements, or `None` when fewer than `n` are
    /// left.
    pub fn next(&mut self) -> (r: Option<&'a [T]>)
        ensures
            old(self).index + old(self).n > old(self).slice@.len() || old(self).n == 0 ==> r
                is None && *final(self) == *old(self),
            old(self).index + old(self).n <= old(self).slice@.len() && old(self).n > 0 ==> (
            r matches Some(s) && s@ == old(self).slice@.subrange(
                old(self).index as int,
                old(self).index + old(self).n,
            ) && final(self).index == old(self).index + 1 && final(self).slice == old(self).slice
                && final(self).n == old(self).n),
    {
        if self.n == 0 || self.slice.len() < self.n || self.index > self.slice.len() - self.n {
            return None;
        }
        let next = slice_subrange(self.slice, self.index, self.index + self.n);
        self.index = self.index + 1;
        Some(next)
    }
}

} // verus!
