use vstd::prelude::*;
use vstd::slice::slice_subrange;

verus! {

/// Types which can be converted to an `Option<T>`.
pub trait AsOption<T> {
    /// What the conversion returns.
    spec fn as_option_spec(&self) -> Option<T>;

    /// Convert this value into an `Option`.
    fn as_option(&self) -> (r: Option<T>)
        ensures
            r == self.as_option_spec();
}

impl AsOption<usize> for usize {
    open spec fn as_option_spec(&self) -> Option<usize> {
        Some(*self)
    }

    fn as_option(&self) -> (r: Option<usize>) {
        Some(*self)
    }
}

impl AsOption<usize> for Option<usize> {
    open spec fn as_option_spec(&self) -> Option<usize> {
        *self
    }

    fn as_option(&self) -> (r: Option<usize>) {
        *self
    }
}

/// A bound saturated at `len`: the index it holds, clamped to `len`, or
/// `unbounded` where it holds none.
pub open spec fn clamp_bound(bound_opt: Option<usize>, unbounded: int, len: int) -> int {
    match bound_opt {
        Some(i) => if i <= len {
            i as int
        } else {
            len
        },
        None => unbounded,
    }
}

/// The index pair a bound pair selects on a value of length `len`: each bound
/// saturated at `len` (a missing start means zero, a missing end means
/// `len`), and the empty range at zero where they cross.
pub open spec fn bound_spec(len: int, start: Option<usize>, end: Option<usize>) -> (int, int) {
    let s = clamp_bound(start, 0, len);
    let e = clamp_bound(end, len, len);
    if s <= e {
        (s, e)
    } else {
        (0, 0)
    }
}

/// Saturate a pair of optional bounds at `len`: never panics, whatever the
/// bounds; the result is a well-formed index range into a value of length
/// `len`.
pub fn bound(len: usize, start: Option<usize>, end: Option<usize>) -> (r: (usize, usize))
    ensures
        (r.0 as int, r.1 as int) == bound_spec(len as int, start, end),
        r.0 <= r.1 <= len,
{
    let s = match start {
        Some(i) => if i <= len {
            i
        } else {
            len
        },
        None => 0,
    };
    let e = match end {
        Some(i) => if i <= len {
            i
        } else {
            len
        },
        None => len,
    };
    if s <= e {
        (s, e)
    } else {
        (0, 0)
    }
}

/// Bounded slice abstraction: get a part of a value without panicking, the
/// bounds saturated at the value's length.
///
/// In place of `foo[a..b]` write `foo.get_slice(Some(a), Some(b))`; a `None`
/// bound stands for the open end of `foo[a..]` and `foo[..b]`.
pub trait GetSlice {
    /// The element type.
    type Elem;

    /// The elements this value holds, in order.
    spec fn slice_model(&self) -> Seq<Self::Elem>;

    /// Panic safely get a slice of a value. When out of bound, the bound will
    /// be saturated.
    fn get_slice(&self, start: Option<usize>, end: Option<usize>) -> (r: &Self)
        ensures
            ({
                let (s, e) = bound_spec(self.slice_model().len() as int, start, end);
                r.slice_model() == self.slice_model().subrange(s, e)
            });
}

impl<T> GetSlice for [T] {
    type Elem = T;

    open spec fn slice_model(&self) -> Seq<T> {
        self@
    }

    fn get_slice(&self, start: Option<usize>, end: Option<usize>) -> (r: &[T]) {
        let (s, e) = bound(self.len(), start, end);
        slice_subrange(self, s, e)
    }
}

} // verus!
