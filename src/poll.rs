use vstd::prelude::*;

verus! {

/// The outcome of one cooperative poll: a value, or not ready yet (the
/// caller's waker has then been registered).
pub enum Poll<T> {
    Ready(T),
    Pending,
}

impl<T> Poll<T> {
    pub fn is_pending(&self) -> (r: bool)
        ensures
            r == (self is Pending),
    {
        match self {
            Poll::Ready(_) => false,
            Poll::Pending => true,
        }
    }
}

} // verus!
