use vstd::prelude::*;

verus! {

/// Largest number of permits the admission gate can hold; also the capacity
/// of a server built without a connection limit.
pub const MAX_PERMITS: usize = usize::MAX >> 3;

/// Listen address of a server built without one.
pub const DEFAULT_ADDRESS: &'static str = "127.0.0.1:8989";

proof fn lemma_shift_below(m: usize)
    requires
        m > 0,
    ensures
        (m >> 3usize) < m,
{
    assert((m >> 3usize) < m) by (bit_vector)
        requires
            m > 0,
    ;
}

/// Configuration gathered before a server is built.
#[derive(Debug)]
pub struct ServerBuilder {
    address: String,
    max_connections: Option<usize>,
}

/// The capacity a limit of `limit` connections gives the admission gate.
pub open spec fn capacity_of(limit: Option<usize>) -> usize {
    match limit {
        None => MAX_PERMITS,
        Some(n) => if n > MAX_PERMITS {
            MAX_PERMITS
        } else {
            n
        },
    }
}

impl ServerBuilder {
    pub closed spec fn address_spec(&self) -> Seq<char> {
        self.address@
    }

    pub closed spec fn limit_spec(&self) -> Option<usize> {
        self.max_connections
    }

    pub fn new() -> (r: ServerBuilder)
        ensures
            r.address_spec() == DEFAULT_ADDRESS@,
            r.limit_spec().is_none(),
    {
        ServerBuilder { address: DEFAULT_ADDRESS.to_owned(), max_connections: None }
    }

    /// Sets the listen address.
    pub fn address(self, address: &str) -> (r: ServerBuilder)
        ensures
            r.address_spec() == address@,
            r.limit_spec() == self.limit_spec(),
    {
        ServerBuilder { address: address.to_owned(), max_connections: self.max_connections }
    }

    /// Sets the largest number of sessions that may run at once.
    pub fn max_connections(self, n: usize) -> (r: ServerBuilder)
        ensures
            r.address_spec() == self.address_spec(),
            r.limit_spec() == Some(n),
    {
        ServerBuilder { address: self.address, max_connections: Some(n) }
    }

    pub fn build(self) -> (r: Server)
        ensures
            r.wf(),
            r.address_spec() == self.address_spec(),
            r.capacity() == capacity_of(self.limit_spec()),
            r.current() == 0,
            !r.is_shutting_down_spec(),
            r.senders_created() == 1,
            r.senders_disposed() == 0,
    {
        let capacity = match self.max_connections {
            None => MAX_PERMITS,
            Some(n) => if n > MAX_PERMITS {
                MAX_PERMITS
            } else {
                n
            },
        };
        Server {
            address: self.address,
            max_connections: capacity,
            current_connections: 0,
            live_senders: 1,
            shutting_down: false,
            created: Ghost(1),
            disposed: Ghost(0),
        }
    }
}

/// The server's bookkeeping: admission of sessions against the connection
/// limit, and the completion senders that tell when every session has exited.
/// The server holds one sender itself and hands a clone to each session.
pub struct Server {
    address: String,
    max_connections: usize,
    current_connections: usize,
    live_senders: usize,
    shutting_down: bool,
    created: Ghost<nat>,
    disposed: Ghost<nat>,
}

impl Server {
    pub closed spec fn address_spec(&self) -> Seq<char> {
        self.address@
    }

    pub closed spec fn capacity(&self) -> usize {
        self.max_connections
    }

    /// Number of sessions admitted and not yet ended.
    pub closed spec fn current(&self) -> nat {
        self.current_connections as nat
    }

    pub closed spec fn is_shutting_down_spec(&self) -> bool {
        self.shutting_down
    }

    /// Completion senders made so far, the server's own included.
    pub closed spec fn senders_created(&self) -> nat {
        self.created@
    }

    /// Completion senders disposed of so far.
    pub closed spec fn senders_disposed(&self) -> nat {
        self.disposed@
    }

    pub closed spec fn wf(&self) -> bool {
        &&& self.current_connections <= self.max_connections
        &&& self.max_connections <= MAX_PERMITS
        &&& self.disposed@ <= self.created@
        &&& self.live_senders == self.created@ - self.disposed@
        &&& self.live_senders == self.current_connections + if self.shutting_down {
            0nat
        } else {
            1nat
        }
    }

    pub fn builder() -> (r: ServerBuilder)
        ensures
            r.address_spec() == DEFAULT_ADDRESS@,
            r.limit_spec().is_none(),
    {
        ServerBuilder::new()
    }

    pub fn address(&self) -> (r: &String)
        ensures
            r@ == self.address_spec(),
    {
        &self.address
    }

    pub fn max_connections(&self) -> (r: usize)
        ensures
            r == self.capacity(),
    {
        self.max_connections
    }

    pub fn current_connections(&self) -> (r: usize)
        ensures
            r == self.current(),
    {
        self.current_connections
    }

    pub fn is_shutting_down(&self) -> (r: bool)
        ensures
            r == self.is_shutting_down_spec(),
    {
        self.shutting_down
    }

    /// Takes a permit for a new session if one is free; the session then holds
    /// its own clone of the completion sender.
    pub fn try_admit(&mut self) -> (r: bool)
        requires
            old(self).wf(),
        ensures
            final(self).wf(),
            r == (old(self).current() < old(self).capacity()),
            final(self).current() == old(self).current() + if r {
                1nat
            } else {
                0nat
            },
            final(self).senders_created() == old(self).senders_created() + if r {
                1nat
            } else {
                0nat
            },
            final(self).senders_disposed() == old(self).senders_disposed(),
            final(self).capacity() == old(self).capacity(),
            final(self).address_spec() == old(self).address_spec(),
            final(self).is_shutting_down_spec() == old(self).is_shutting_down_spec(),
    {
        proof {
            lemma_shift_below(usize::MAX);
        }
        if self.current_connections < self.max_connections {
            self.current_connections = self.current_connections + 1;
            self.live_senders = self.live_senders + 1;
            self.created = Ghost(self.created@ + 1);
            true
        } else {
            false
        }
    }

    /// A session has ended: its permit goes back to the pool and its
    /// completion sender is dropped.
    pub fn session_ended(&mut self)
        requires
            old(self).wf(),
            old(self).current() > 0,
        ensures
            final(self).wf(),
            final(self).current() == old(self).current() - 1,
            final(self).senders_created() == old(self).senders_created(),
            final(self).senders_disposed() == old(self).senders_disposed() + 1,
            final(self).capacity() == old(self).capacity(),
            final(self).address_spec() == old(self).address_spec(),
            final(self).is_shutting_down_spec() == old(self).is_shutting_down_spec(),
    {
        self.current_connections = self.current_connections - 1;
        self.live_senders = self.live_senders - 1;
        self.disposed = Ghost(self.disposed@ + 1);
    }

    /// Starts shutdown: the signal is sent and the server disposes of its own
    /// completion sender. A second call changes nothing.
    pub fn begin_shutdown(&mut self)
        requires
            old(self).wf(),
        ensures
            final(self).wf(),
            final(self).is_shutting_down_spec(),
            final(self).current() == old(self).current(),
            final(self).senders_created() == old(self).senders_created(),
            final(self).senders_disposed() == old(self).senders_disposed() + if old(
                self,
            ).is_shutting_down_spec() {
                0nat
            } else {
                1nat
            },
            final(self).capacity() == old(self).capacity(),
            final(self).address_spec() == old(self).address_spec(),
    {
        if !self.shutting_down {
            self.shutting_down = true;
            self.live_senders = self.live_senders - 1;
            self.disposed = Ghost(self.disposed@ + 1);
        }
    }

    /// Whether every completion sender has been disposed of, so that serving
    /// may return.
    pub fn is_drained(&self) -> (r: bool)
        requires
            self.wf(),
        ensures
            r == (self.senders_disposed() == self.senders_created()),
    {
        self.live_senders == 0
    }

    /// The admission gate never lets more sessions run than the configured limit.
    pub proof fn lemma_admission_bound(&self)
        requires
            self.wf(),
        ensures
            self.current() <= self.capacity(),
    {
    }

    /// Serving may end only once every completion sender that was made has
    /// been disposed of: then shutdown has begun and no session is left.
    pub proof fn lemma_drained_means_all_exited(&self)
        requires
            self.wf(),
            self.senders_disposed() == self.senders_created(),
        ensures
            self.is_shutting_down_spec(),
            self.current() == 0,
    {
    }
}

} // verus!
