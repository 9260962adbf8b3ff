use vstd::prelude::*;

use crate::endpoints::{Endpoints, EndpointsView, EndpointError, counts_fit, comma_list};
use crate::restart::{RestartWindow, RestartDelay, RESTART_BURST, drop_stale};

verus! {

/// Where the next session connects to, and with what secret.
pub struct Target {
    pub server: String,
    pub secret: String,
}

/// Drives the client's reconnect loop: picks servers in turn, and after each session
/// decides whether to reconnect at once or after a pause.
pub struct Supervisor {
    endpoints: Endpoints,
    next: usize,
    restarts: RestartWindow,
}

pub struct SupervisorView {
    pub endpoints: EndpointsView,
    pub next: usize,
    pub restarts: Seq<u64>,
}

impl View for Supervisor {
    type V = SupervisorView;

    closed spec fn view(&self) -> SupervisorView {
        SupervisorView { endpoints: self.endpoints@, next: self.next, restarts: self.restarts@ }
    }
}

/// The attempt index after `i`, wrapping around at the top of `usize`.
pub open spec fn next_index(i: usize) -> usize {
    if i == usize::MAX {
        0
    } else {
        (i + 1) as usize
    }
}

/// The attempt counter moves on by exactly one, and wraps to zero only at the top
/// of `usize`.
pub proof fn lemma_next_index_steps(i: usize)
    ensures
        i < usize::MAX ==> next_index(i) == i + 1,
        i == usize::MAX ==> next_index(i) == 0,
{
}

/// Starting from attempt zero, the first round of attempts goes to every server
/// once, in the order listed: the attempt after `k` (for `k` below the number of
/// servers less one) is attempt `k + 1`, and attempt `k` goes to the `k`-th server.
pub proof fn lemma_first_round_in_order(e: EndpointsView, k: usize)
    requires
        e.wf(),
        k < e.servers.len(),
    ensures
        e.server_at(k as int) == e.servers[k as int],
        k + 1 < e.servers.len() && k < usize::MAX ==> next_index(k) == k + 1 && e.server_at(next_index(k) as int)
            == e.servers[k + 1],
{
    vstd::arithmetic::div_mod::lemma_small_mod(k as nat, e.servers.len());
    if k + 1 < e.servers.len() && k < usize::MAX {
        vstd::arithmetic::div_mod::lemma_small_mod((k + 1) as nat, e.servers.len());
    }
}

impl Supervisor {
    pub fn new(endpoints: Endpoints) -> (res: Supervisor)
        ensures
            res@.endpoints == endpoints@,
            res@.next == 0,
            res@.restarts == Seq::<u64>::empty(),
    {
        Supervisor { endpoints, next: 0, restarts: RestartWindow::new() }
    }

    /// Reads the comma-separated server and secret lists, as `Endpoints::parse`
    /// does, and starts at the first server with no restarts behind it.
    pub fn from_config(d_addr: &str, auth: &str) -> (res: Result<Supervisor, EndpointError>)
        ensures
            res is Ok <==> counts_fit(comma_list(d_addr@).len(), comma_list(auth@).len()),
            res matches Ok(s) ==> {
                &&& s@.endpoints.servers == comma_list(d_addr@)
                &&& s@.endpoints.secrets == comma_list(auth@)
                &&& s@.next == 0
                &&& s@.restarts == Seq::<u64>::empty()
            },
    {
        match Endpoints::parse(d_addr, auth) {
            Ok(e) => Ok(Supervisor::new(e)),
            Err(err) => Err(err),
        }
    }

    pub fn endpoints(&self) -> (res: &Endpoints)
        ensures
            res@ == self@.endpoints,
    {
        &self.endpoints
    }

    /// The server and secret for the next session; the attempt counter moves on by
    /// one, wrapping around.
    pub fn next_target(&mut self) -> (res: Target)
        ensures
            res.server@ == old(self)@.endpoints.server_at(old(self)@.next as int),
            res.secret@ == old(self)@.endpoints.secret_at(old(self)@.next as int),
            final(self)@.next == next_index(old(self)@.next),
            final(self)@.next == (if old(self)@.next == usize::MAX {
                0
            } else {
                old(self)@.next + 1
            }),
            final(self)@.endpoints == old(self)@.endpoints,
            final(self)@.restarts == old(self)@.restarts,
    {
        let (server, secret) = self.endpoints.target(self.next);
        self.next = if self.next == usize::MAX {
            0
        } else {
            self.next + 1
        };
        Target { server, secret }
    }

    /// A session ended at `now` (nanoseconds on a monotonic clock) without the client
    /// being stopped: records the restart and says whether to pause before the next.
    pub fn session_ended(&mut self, now: u64) -> (res: RestartDelay)
        ensures
            final(self)@.restarts == drop_stale(old(self)@.restarts.push(now), now),
            res == (if final(self)@.restarts.len() >= RESTART_BURST {
                RestartDelay::PauseOneSecond
            } else {
                RestartDelay::Immediate
            }),
            final(self)@.next == old(self)@.next,
            final(self)@.endpoints == old(self)@.endpoints,
    {
        self.restarts.record(now)
    }
}

} // verus!
