use vstd::prelude::*;

verus! {

/// How long a blocking call waits for the native callback, in milliseconds.
pub const BRIDGE_TIMEOUT_MS: u64 = 5000;

/// The result cell shared by a blocking call and the one-shot native
/// callback that completes it.
pub struct BridgeCell<T> {
    delivered: bool,
    value: Option<T>,
}

impl<T> View for BridgeCell<T> {
    /// Whether the callback has fired, and the value it stored.
    type V = (bool, Option<T>);

    closed spec fn view(&self) -> (bool, Option<T>) {
        (self.delivered, self.value)
    }
}

impl<T> BridgeCell<T> {
    /// A cell that no callback has written yet.
    pub fn new() -> (r: Self)
        ensures
            r@ == (false, None::<T>),
    {
        BridgeCell { delivered: false, value: None }
    }

    /// The callback's write: the value as the caller's mapping produced it
    /// (`None` where the native value was null or invalid). A later write
    /// replaces an earlier one.
    pub fn deliver(&mut self, mapped: Option<T>)
        ensures
            final(self)@ == (true, mapped),
    {
        self.delivered = true;
        self.value = mapped;
    }

    /// Whether the callback has fired; the waiter stops waiting once it has.
    pub fn is_delivered(&self) -> (r: bool)
        ensures
            r == self@.0,
    {
        self.delivered
    }

    /// What the blocking call returns when it stops waiting: the stored
    /// value if the callback fired before the wait `timed_out`, else `None`.
    pub fn outcome(self, timed_out: bool) -> (r: Option<T>)
        ensures
            r == (if self@.0 && !timed_out {
                self@.1
            } else {
                None
            }),
    {
        if self.delivered && !timed_out {
            self.value
        } else {
            None
        }
    }
}

} // verus!
