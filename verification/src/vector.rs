//! Fixed-length ordered container of numeric samples.
//!
//! A [`Vector`] holds a time-ordered, zero-based run of samples whose length
//! is fixed at construction. Element access past the length and elementwise
//! combination of runs of different lengths are rejected with an explicit
//! error instead of panicking, so callers can report failures cleanly.

use vstd::prelude::*;

verus! {

use vstd::std_specs::ops::AddSpec;
use vstd::std_specs::ops::SubSpec;

/// Failure of a container operation.
#[derive(Clone, Copy, Debug, PartialEq, Eq, Structural)]
pub enum VectorError {
    /// Element access at an index that is not below the length.
    IndexOutOfRange,
    /// Elementwise combination of two vectors of different lengths.
    LengthMismatch,
}

/// A fixed-length, zero-based, time-ordered run of samples.
///
/// The abstract value of a `Vector<T>` is the sequence of its samples, in
/// index order; `v@` denotes that sequence in specifications. The length is
/// set at construction and never changes afterwards.
#[derive(Clone, Debug)]
pub struct Vector<T> {
    data: Vec<T>,
}

impl<T> View for Vector<T> {
    type V = Seq<T>;

    closed spec fn view(&self) -> Seq<T> {
        self.data@
    }
}

impl<T: Default + Copy> Vector<T> {
    /// A vector of `size` samples, each set to the default sample value:
    /// every sample satisfies the postcondition of `T::default`, which for
    /// the primitive numeric types pins it to zero.
    pub fn new(size: usize) -> (v: Self)
        ensures
            v@.len() == size,
            forall|i: int| 0 <= i < size ==> #[trigger] v@[i] == v@[0],
            forall|i: int| 0 <= i < size ==> call_ensures(T::default, (), #[trigger] v@[i]),
    {
        let fill = T::default();
        let mut data: Vec<T> = Vec::new();
        while data.len() < size
            invariant
                data@.len() <= size,
                call_ensures(T::default, (), fill),
                forall|i: int| 0 <= i < data@.len() ==> data@[i] == fill,
            decreases size - data@.len(),
        {
            data.push(fill);
        }
        Vector { data }
    }
}

impl<T> Vector<T> {
    /// A vector holding exactly the supplied samples, in order.
    pub fn from_vec(data: Vec<T>) -> (v: Self)
        ensures
            v@ == data@,
    {
        Vector { data }
    }

    /// The number of samples.
    pub fn len(&self) -> (n: usize)
        ensures
            n == self@.len(),
    {
        self.data.len()
    }
}

impl<T: Copy> Vector<T> {
    /// The sample at `index`, for callers that can show the index in range.
    pub fn at(&self, index: usize) -> (value: T)
        requires
            index < self@.len(),
        ensures
            value == self@[index as int],
    {
        self.data[index]
    }

    /// The sample at `index`, or `IndexOutOfRange` when `index` is not
    /// below the length.
    pub fn get(&self, index: usize) -> (r: Result<T, VectorError>)
        ensures
            index < self@.len() ==> r == Ok::<T, VectorError>(self@[index as int]),
            index >= self@.len() ==> r == Err::<T, VectorError>(VectorError::IndexOutOfRange),
    {
        if index < self.data.len() {
            Ok(self.data[index])
        } else {
            Err(VectorError::IndexOutOfRange)
        }
    }

    /// Replaces the sample at `index` with `value`; fails with
    /// `IndexOutOfRange`, leaving the vector unchanged, when `index` is not
    /// below the length.
    pub fn set(&mut self, index: usize, value: T) -> (r: Result<(), VectorError>)
        ensures
            index < old(self)@.len() ==> final(self)@ == old(self)@.update(index as int, value)
                && r == Ok::<(), VectorError>(()),
            index >= old(self)@.len() ==> final(self)@ == old(self)@
                && r == Err::<(), VectorError>(VectorError::IndexOutOfRange),
    {
        if index < self.data.len() {
            self.data[index] = value;
            Ok(())
        } else {
            Err(VectorError::IndexOutOfRange)
        }
    }
}

impl<T: core::ops::Add<Output = T> + Copy> Vector<T> {
    /// The elementwise sum of `self` and `other`.
    ///
    /// Fails with `LengthMismatch` exactly when the lengths differ; it never
    /// truncates or pads. When the sample type's addition obeys its
    /// specification, sample `i` of the result is `self@[i].add_spec(other@[i])`.
    pub fn add(&self, other: &Vector<T>) -> (r: Result<Vector<T>, VectorError>)
        requires
            self@.len() == other@.len() ==> forall|i: int|
                0 <= i < self@.len() ==> #[trigger] self@[i].add_req(other@[i]),
        ensures
            r is Err <==> self@.len() != other@.len(),
            r is Err ==> r == Err::<Vector<T>, VectorError>(VectorError::LengthMismatch),
            r is Ok ==> (r->Ok_0)@.len() == self@.len(),
            r is Ok && T::obeys_add_spec() ==> forall|i: int|
                0 <= i < self@.len() ==> (r->Ok_0)@[i] == self@[i].add_spec(other@[i]),
    {
        if self.data.len() != other.data.len() {
            return Err(VectorError::LengthMismatch);
        }
        let mut out: Vec<T> = Vec::new();
        let mut i: usize = 0;
        while i < self.data.len()
            invariant
                i <= self@.len(),
                self@.len() == other@.len(),
                out@.len() == i,
                forall|j: int| 0 <= j < self@.len() ==> #[trigger] self@[j].add_req(other@[j]),
                T::obeys_add_spec() ==> forall|j: int|
                    0 <= j < i ==> out@[j] == self@[j].add_spec(other@[j]),
            decreases self@.len() - i,
        {
            let sum = self.data[i] + other.data[i];
            out.push(sum);
            i += 1;
        }
        Ok(Vector { data: out })
    }
}

impl<T: core::ops::Sub<Output = T> + Copy> Vector<T> {
    /// The elementwise difference of `self` and `other`.
    ///
    /// Fails with `LengthMismatch` exactly when the lengths differ; it never
    /// truncates or pads. When the sample type's subtraction obeys its
    /// specification, sample `i` of the result is `self@[i].sub_spec(other@[i])`.
    pub fn subtract(&self, other: &Vector<T>) -> (r: Result<Vector<T>, VectorError>)
        requires
            self@.len() == other@.len() ==> forall|i: int|
                0 <= i < self@.len() ==> #[trigger] self@[i].sub_req(other@[i]),
        ensures
            r is Err <==> self@.len() != other@.len(),
            r is Err ==> r == Err::<Vector<T>, VectorError>(VectorError::LengthMismatch),
            r is Ok ==> (r->Ok_0)@.len() == self@.len(),
            r is Ok && T::obeys_sub_spec() ==> forall|i: int|
                0 <= i < self@.len() ==> (r->Ok_0)@[i] == self@[i].sub_spec(other@[i]),
    {
        if self.data.len() != other.data.len() {
            return Err(VectorError::LengthMismatch);
        }
        let mut out: Vec<T> = Vec::new();
        let mut i: usize = 0;
        while i < self.data.len()
            invariant
                i <= self@.len(),
                self@.len() == other@.len(),
                out@.len() == i,
                forall|j: int| 0 <= j < self@.len() ==> #[trigger] self@[j].sub_req(other@[j]),
                T::obeys_sub_spec() ==> forall|j: int|
                    0 <= j < i ==> out@[j] == self@[j].sub_spec(other@[j]),
            decreases self@.len() - i,
        {
            let diff = self.data[i] - other.data[i];
            out.push(diff);
            i += 1;
        }
        Ok(Vector { data: out })
    }
}

} // verus!
