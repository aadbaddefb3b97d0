//! Small helpers around results and pairs.

use vstd::prelude::*;

verus! {

/// A result whose failure can be set aside.
pub trait ResultExt<T, E>: Sized {
    /// The result itself.
    spec fn as_result(self) -> Result<T, E>;

    /// Gives the value of a success; appends the error of a failure to
    /// `to` and gives nothing.
    fn store(self, to: &mut Vec<E>) -> (r: Option<T>)
        ensures
            match self.as_result() {
                Ok(v) => r == Some(v) && final(to)@ == old(to)@,
                Err(e) => r is None && final(to)@ == old(to)@.push(e),
            },
    ;
}

impl<T, E> ResultExt<T, E> for Result<T, E> {
    open spec fn as_result(self) -> Result<T, E> {
        self
    }

    fn store(self, to: &mut Vec<E>) -> (r: Option<T>) {
        match self {
            Ok(val) => Some(val),
            Err(e) => {
                to.push(e);
                None
            },
        }
    }
}

/// A pair that is looked at from both sides with the same code.
#[derive(Debug, Clone, Copy)]
pub struct Comparator<T> where T: Copy {
    pub left: T,
    pub right: T,
}

impl<T> Comparator<T> where T: Copy {
    /// What `op` gives of the pair as it stands or, where it gives
    /// nothing, of the pair turned round.
    pub fn take<F, R>(&self, op: F) -> (res: Option<R>) where F: Fn(T, T) -> Option<R>
        requires
            call_requires(op, (self.left, self.right)),
            call_requires(op, (self.right, self.left)),
        ensures
            (res is Some && call_ensures(op, (self.left, self.right), res)) || (call_ensures(
                op,
                (self.left, self.right),
                None::<R>,
            ) && call_ensures(op, (self.right, self.left), res)),
    {
        match op(self.left, self.right) {
            Some(v) => Some(v),
            None => op(self.right, self.left),
        }
    }

    /// Whether `op` holds of both sides; the right side is not asked where
    /// the left one fails.
    pub fn both<F>(&self, op: F) -> (res: bool) where F: Fn(T) -> bool
        requires
            call_requires(op, (self.left,)),
            call_requires(op, (self.right,)),
        ensures
            res ==> call_ensures(op, (self.left,), true) && call_ensures(op, (self.right,), true),
            !res ==> call_ensures(op, (self.left,), false) || (call_ensures(
                op,
                (self.left,),
                true,
            ) && call_ensures(op, (self.right,), false)),
    {
        op(self.left) && op(self.right)
    }

    /// Whether `op` holds of either side; the right side is not asked
    /// where the left one holds.
    pub fn any<F>(&self, op: F) -> (res: bool) where F: Fn(T) -> bool
        requires
            call_requires(op, (self.left,)),
            call_requires(op, (self.right,)),
        ensures
            !res ==> call_ensures(op, (self.left,), false) && call_ensures(
                op,
                (self.right,),
                false,
            ),
            res ==> call_ensures(op, (self.left,), true) || (call_ensures(
                op,
                (self.left,),
                false,
            ) && call_ensures(op, (self.right,), true)),
    {
        op(self.left) || op(self.right)
    }
}

} // verus!
