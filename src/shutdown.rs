use vstd::prelude::*;

verus! {

/// A session's view of the server-wide shutdown signal. Once the signal has
/// been seen it stays seen.
#[derive(Debug)]
pub struct Shutdown {
    is_shutdown: bool,
}

impl Shutdown {
    pub closed spec fn signaled(&self) -> bool {
        self.is_shutdown
    }

    /// A watch created after the signal fired starts out signaled.
    pub fn new(already_signaled: bool) -> (r: Shutdown)
        ensures
            r.signaled() == already_signaled,
    {
        Shutdown { is_shutdown: already_signaled }
    }

    pub fn is_shutdown(&self) -> (r: bool)
        ensures
            r == self.signaled(),
    {
        self.is_shutdown
    }

    /// Records that the signal has been received.
    pub fn observe(&mut self)
        ensures
            final(self).signaled(),
    {
        self.is_shutdown = true;
    }

    /// Whether the channel still needs to be waited on.
    pub fn needs_recv(&self) -> (r: bool)
        ensures
            r == !self.signaled(),
    {
        !self.is_shutdown
    }
}

} // verus!
