use vstd::prelude::*;

verus! {

/// What one poll of an asynchronous source reported: still waiting, or done
/// with a value.
#[derive(Debug)]
pub enum Progress<T> {
    Pending,
    Ready(T),
}

impl<T> Progress<T> {
    pub fn is_ready(&self) -> (ready: bool)
        ensures
            ready == (self is Ready),
    {
        match self {
            Progress::Pending => false,
            Progress::Ready(_) => true,
        }
    }

    pub fn is_pending(&self) -> (pending: bool)
        ensures
            pending == (self is Pending),
    {
        match self {
            Progress::Pending => true,
            Progress::Ready(_) => false,
        }
    }

    /// The value of a finished source, `None` while it is still pending.
    pub fn ready(self) -> (value: Option<T>)
        ensures
            value == match self {
                Progress::Pending => None::<T>,
                Progress::Ready(v) => Some(v),
            },
    {
        match self {
            Progress::Pending => None,
            Progress::Ready(v) => Some(v),
        }
    }
}

} // verus!
