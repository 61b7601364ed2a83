//! Mirror of a server-declared rate-limit window. The server's usage counter
//! is authoritative; the window only decides whether a cost fits and how long
//! to wait for the next window otherwise.
use vstd::arithmetic::div_mod::lemma_fundamental_div_mod;
use vstd::prelude::*;

verus! {

/// The abstract state of a [`Window`].
pub struct WindowView {
    pub limit: nat,
    pub window_ms: nat,
    /// Index of the window that the last server time fell into.
    pub index: nat,
    /// Usage that the server last reported.
    pub used: nat,
    /// The last server time seen, in milliseconds.
    pub now: nat,
}

/// Fixed-length usage window of one limit type.
#[derive(Debug, Clone, Copy)]
pub struct Window {
    limit: u32,
    window_ms: u64,
    window_index: u64,
    used: u32,
    last_server_ms: u64,
}

impl View for Window {
    type V = WindowView;

    closed spec fn view(&self) -> WindowView {
        WindowView {
            limit: self.limit as nat,
            window_ms: self.window_ms as nat,
            index: self.window_index as nat,
            used: self.used as nat,
            now: self.last_server_ms as nat,
        }
    }
}

impl Window {
    /// The window is never empty, and its index is the one of the last
    /// server time seen.
    pub open spec fn wf(&self) -> bool {
        &&& self@.window_ms > 0
        &&& self@.index == self@.now / self@.window_ms
    }

    /// Time left in the current window, from the last server time seen.
    pub open spec fn wait_ms(&self) -> int {
        (self@.index + 1) * self@.window_ms - self@.now
    }

    /// A window of `limit` units per `window_ms` milliseconds, with nothing
    /// used, at server time zero.
    pub fn new(limit: u32, window_ms: u64) -> (r: Window)
        requires
            window_ms > 0,
        ensures
            r.wf(),
            r@ == (WindowView { limit: limit as nat, window_ms: window_ms as nat, index: 0, used: 0, now: 0 }),
    {
        Window { limit, window_ms, window_index: 0, used: 0, last_server_ms: 0 }
    }

    pub fn limit(&self) -> (r: u32)
        ensures
            r == self@.limit,
    {
        self.limit
    }

    pub fn window_ms(&self) -> (r: u64)
        ensures
            r == self@.window_ms,
    {
        self.window_ms
    }

    pub fn window_index(&self) -> (r: u64)
        ensures
            r == self@.index,
    {
        self.window_index
    }

    pub fn used(&self) -> (r: u32)
        ensures
            r == self@.used,
    {
        self.used
    }

    /// Records the usage `count` that a response stamped `server_ms` reports.
    /// Where the response falls into another window, the usage of the old one
    /// is dropped; the server's count then stands as the usage.
    pub fn update_from_response(&mut self, server_ms: u64, count: u32)
        requires
            old(self).wf(),
        ensures
            final(self).wf(),
            final(self)@ == (WindowView {
                limit: old(self)@.limit,
                window_ms: old(self)@.window_ms,
                index: server_ms as nat / old(self)@.window_ms,
                used: count as nat,
                now: server_ms as nat,
            }),
    {
        let idx = server_ms / self.window_ms;
        if idx != self.window_index {
            self.window_index = idx;
            self.used = 0;
        }
        self.used = count;
        self.last_server_ms = server_ms;
    }

    /// `None` where `cost` more units fit into the current window; otherwise
    /// the milliseconds until the next window begins.
    pub fn deficit(&self, cost: u32) -> (r: Option<u64>)
        requires
            self.wf(),
        ensures
            self@.used + cost <= self@.limit ==> r == None::<u64>,
            self@.used + cost > self@.limit ==> r == Some(self.wait_ms() as u64),
            0 < self.wait_ms() <= self@.window_ms,
    {
        proof {
            lemma_fundamental_div_mod(self.last_server_ms as int, self.window_ms as int);
            let w = self.window_ms as int;
            let n = self.last_server_ms as int;
            assert((n / w + 1) * w == w * (n / w) + w) by (nonlinear_arith);
        }
        if self.used as u64 + cost as u64 <= self.limit as u64 {
            None
        } else {
            Some(self.window_ms - self.last_server_ms % self.window_ms)
        }
    }
}

} // verus!
