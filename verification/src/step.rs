use vstd::prelude::*;

verus! {

/// Outcome of one attempt at a suspend-and-resume operation.
///
/// `Pending` means the operation could not complete and the caller must
/// suspend until it is woken; `Ready` carries the final result.
#[derive(Debug, PartialEq, Eq, Structural)]
pub enum Step<T> {
    Pending,
    Ready(T),
}

impl<T: Copy> Clone for Step<T> {
    fn clone(&self) -> (step: Self)
        ensures
            step == *self,
    {
        *self
    }
}

impl<T: Copy> Copy for Step<T> {

}

impl<T> Step<T> {
    /// Whether the operation completed.
    pub fn is_ready(&self) -> (r: bool)
        ensures
            r == (*self is Ready),
    {
        match self {
            Step::Ready(_) => true,
            Step::Pending => false,
        }
    }

    /// Whether the caller has to suspend.
    pub fn is_pending(&self) -> (r: bool)
        ensures
            r == (*self is Pending),
    {
        match self {
            Step::Ready(_) => false,
            Step::Pending => true,
        }
    }

    /// The result of a completed operation, `None` while it is pending.
    pub fn ready(self) -> (r: Option<T>)
        ensures
            r == (match self {
                Step::Ready(value) => Some(value),
                Step::Pending => None,
            }),
    {
        match self {
            Step::Ready(value) => Some(value),
            Step::Pending => None,
        }
    }
}

} // verus!
