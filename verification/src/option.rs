use vstd::prelude::*;

verus! {

/// Extension for `Option<T>`.
pub trait OptionExt: Sized {
    /// The "success" variant of this optional type.
    type Succ;

    /// This value, seen as a plain `Option` over the success type.
    spec fn succ_model(self) -> Option<Self::Succ>;

    /// Filter this Option.
    ///
    /// This takes a closure which returns a boolean. If true, nothing will
    /// change. If false, it will set the option to `None`. The closure runs
    /// at most once, on the held value.
    fn filter<F: FnOnce(&Self::Succ) -> bool>(self, pred: F) -> (r: Self)
        requires
            forall|x: &Self::Succ| self.succ_model() == Some(*x) ==> call_requires(pred, (x,)),
        ensures
            match self.succ_model() {
                None => r.succ_model() is None,
                Some(x) => {
                    ||| (r.succ_model() == Some(x) && call_ensures(pred, (&x,), true))
                    ||| (r.succ_model() is None && call_ensures(pred, (&x,), false))
                },
            };
}

impl<T> OptionExt for Option<T> {
    type Succ = T;

    open spec fn succ_model(self) -> Option<T> {
        self
    }

    fn filter<F: FnOnce(&T) -> bool>(self, pred: F) -> (r: Option<T>) {
        match self {
            Some(x) => if pred(&x) {
                Some(x)
            } else {
                None
            },
            None => None,
        }
    }
}

} // verus!
