//! A model of the bounded resource pool at its interface boundary: a fixed
//! stock of connections, checkout and return, and ghost accounting that ties
//! the two together.
//!
//! The real pool collaborator creates and retires connections on its own
//! schedule; what the bridge relies on — and what this model states — is the
//! checkout protocol: a checkout hands out exclusive ownership of one idle
//! connection or fails without effect, a return puts exactly one connection
//! back, and at quiescence every checkout has been matched by a return.

use vstd::prelude::*;

verus! {

/// A bounded pool of connections with checkout/return accounting.
pub struct ResourcePool<Conn> {
    idle: Vec<Conn>,
    max_size: u32,
    out: u32,
    checkouts: Ghost<int>,
    returned: Ghost<int>,
}

impl<Conn> ResourcePool<Conn> {
    /// The idle connections, in return order: a checkout takes the last one,
    /// a return pushes onto the end.
    pub closed spec fn idle_spec(self) -> Seq<Conn> {
        self.idle@
    }

    /// The configured bound on connections this pool manages.
    pub closed spec fn max_size_spec(self) -> int {
        self.max_size as int
    }

    /// How many connections are checked out right now.
    pub closed spec fn out_spec(self) -> int {
        self.out as int
    }

    /// How many checkouts have succeeded so far.
    pub closed spec fn checkout_count(self) -> int {
        self.checkouts@
    }

    /// How many connections have been returned so far.
    pub closed spec fn return_count(self) -> int {
        self.returned@
    }

    /// The pool's invariant: what is out is exactly the excess of checkouts
    /// over returns, and idle plus out never exceeds the bound.
    pub open spec fn wf(self) -> bool {
        &&& self.out_spec() == self.checkout_count() - self.return_count()
        &&& self.return_count() >= 0
        &&& self.checkout_count() >= self.return_count()
        &&& self.idle_spec().len() + self.out_spec() <= self.max_size_spec()
    }

    /// A pool holding the given connections, none checked out yet.
    pub fn new(max_size: u32, connections: Vec<Conn>) -> (r: Self)
        requires
            connections@.len() <= max_size,
        ensures
            r.wf(),
            r.idle_spec() == connections@,
            r.max_size_spec() == max_size,
            r.out_spec() == 0,
            r.checkout_count() == 0,
            r.return_count() == 0,
    {
        ResourcePool {
            idle: connections,
            max_size,
            out: 0,
            checkouts: Ghost(0),
            returned: Ghost(0),
        }
    }

    /// How many connections are idle right now.
    pub fn idle_count(&self) -> (r: usize)
        ensures
            r == self.idle_spec().len(),
    {
        self.idle.len()
    }

    /// How many connections are checked out right now.
    pub fn checked_out(&self) -> (r: u32)
        ensures
            r == self.out_spec(),
    {
        self.out
    }

    /// Checks one connection out, or fails without effect. Success hands the
    /// caller exclusive ownership of the most recently returned idle
    /// connection; failure (no connection free within policy) leaves the pool
    /// exactly as it was.
    pub fn try_checkout(&mut self) -> (r: Option<Conn>)
        requires
            old(self).wf(),
        ensures
            final(self).wf(),
            final(self).max_size_spec() == old(self).max_size_spec(),
            old(self).idle_spec().len() == 0 ==> r is None && *final(self) == *old(self),
            old(self).idle_spec().len() > 0 ==> {
                &&& r == Option::Some(old(self).idle_spec().last())
                &&& final(self).idle_spec() == old(self).idle_spec().drop_last()
                &&& final(self).out_spec() == old(self).out_spec() + 1
                &&& final(self).checkout_count() == old(self).checkout_count() + 1
                &&& final(self).return_count() == old(self).return_count()
            },
    {
        if self.idle.len() == 0 {
            None
        } else {
            let conn = self.idle.pop().unwrap();
            self.out = self.out + 1;
            self.checkouts = Ghost(self.checkouts@ + 1);
            Some(conn)
        }
    }

    /// Returns a checked-out connection to the pool. Every exit path of a
    /// worker must reach this exactly once per successful checkout.
    pub fn put_back(&mut self, connection: Conn)
        requires
            old(self).wf(),
            old(self).out_spec() > 0,
        ensures
            final(self).wf(),
            final(self).max_size_spec() == old(self).max_size_spec(),
            final(self).idle_spec() == old(self).idle_spec().push(connection),
            final(self).out_spec() == old(self).out_spec() - 1,
            final(self).checkout_count() == old(self).checkout_count(),
            final(self).return_count() == old(self).return_count() + 1,
    {
        self.idle.push(connection);
        self.out = self.out - 1;
        self.returned = Ghost(self.returned@ + 1);
    }

    /// No-leak law: at quiescence — nothing checked out — the number of
    /// checkouts equals the number of returns, whatever finite sequence of
    /// calls led here.
    pub proof fn lemma_no_leak(self)
        requires
            self.wf(),
            self.out_spec() == 0,
        ensures
            self.checkout_count() == self.return_count(),
    {
    }
}

} // verus!
