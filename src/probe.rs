//! Reading redirect probes: whether a login page is required, whether
//! connectivity is confirmed, and the connectivity poller's decisions.
use vstd::prelude::*;

verus! {

/// HTTP status Found.
pub const STATUS_FOUND: u16 = 302;
/// HTTP status OK.
pub const STATUS_OK: u16 = 200;

/// What a HEAD probe (with redirects not followed) brought back.
pub struct ProbeResponse {
    /// The response status code.
    pub status: u16,
    /// The value of the Location header, if the response has one.
    pub location: Option<String>,
}

/// Outcome of the login-page detection.
pub enum AuthProbeResult {
    /// The network redirects to this login page.
    RedirectTo(String),
    /// No redirect, or the probe failed: nothing to log in to.
    NoRedirectOrFailed,
}

/// The login page that a probe outcome points at: the Location of a Found
/// response. `None` stands for a probe that failed in transport.
pub open spec fn redirect_target(response: Option<ProbeResponse>) -> Option<Seq<char>> {
    match response {
        Some(resp) => if resp.status == STATUS_FOUND {
            match resp.location {
                Some(l) => Some(l@),
                None => None,
            }
        } else {
            None
        },
        None => None,
    }
}

/// Classifies the outcome of the login-detection probe: a Found response with a
/// Location redirects there; anything else, a transport failure included, is
/// `NoRedirectOrFailed`.
pub fn check_auth_url(response: Option<ProbeResponse>) -> (r: AuthProbeResult)
    ensures
        match r {
            AuthProbeResult::RedirectTo(url) => redirect_target(response) == Some(url@),
            AuthProbeResult::NoRedirectOrFailed => redirect_target(response) is None,
        },
{
    match response {
        Some(resp) => {
            if resp.status == STATUS_FOUND {
                match resp.location {
                    Some(l) => AuthProbeResult::RedirectTo(l),
                    None => AuthProbeResult::NoRedirectOrFailed,
                }
            } else {
                AuthProbeResult::NoRedirectOrFailed
            }
        },
        None => AuthProbeResult::NoRedirectOrFailed,
    }
}

/// Whether a connectivity probe confirms that the login succeeded: only a
/// response with status OK does; `None` stands for a failed probe.
pub fn probe_confirms(status: Option<u16>) -> (r: bool)
    ensures
        r == (status == Some(STATUS_OK)),
{
    match status {
        Some(s) => s == STATUS_OK,
        None => false,
    }
}

/// What the poller does with the next message of its request channel.
#[derive(Clone, Copy, Debug, PartialEq, Eq, Structural)]
pub enum PollStep {
    /// Issue one connectivity probe.
    Probe,
    /// Issue no probe and wait for the next message.
    Skip,
    /// Leave the loop for good.
    Stop,
}

/// The poller's decision on a message, `None` standing for a closed channel:
/// while it runs, each `true` request gives one probe, a `false` request gives
/// none, and only the closing of the channel ends it.
pub open spec fn poll_step(running: bool, msg: Option<bool>) -> PollStep {
    if !running {
        PollStep::Stop
    } else {
        match msg {
            Some(true) => PollStep::Probe,
            Some(false) => PollStep::Skip,
            None => PollStep::Stop,
        }
    }
}

/// The steps the poller takes on a sequence of messages, one per message, in
/// the order they arrive.
pub open spec fn poll_run(running: bool, msgs: Seq<Option<bool>>) -> Seq<PollStep>
    decreases msgs.len(),
{
    if msgs.len() == 0 {
        Seq::empty()
    } else {
        let step = poll_step(running, msgs[0]);
        seq![step] + poll_run(step != PollStep::Stop, msgs.drop_first())
    }
}

/// The connectivity poller: it serialises check requests into probes, one per
/// request in arrival order, until its channel closes.
pub struct Poller {
    pub running: bool,
}

impl Poller {
    /// A poller that waits for its first request.
    pub fn new() -> (r: Poller)
        ensures
            r.running,
    {
        Poller { running: true }
    }

    /// Decides what to do with the next message (`None`: the channel closed).
    pub fn on_message(&mut self, msg: Option<bool>) -> (r: PollStep)
        ensures
            r == poll_step(old(self).running, msg),
            final(self).running == (r != PollStep::Stop),
    {
        if !self.running {
            return PollStep::Stop;
        }
        match msg {
            Some(true) => PollStep::Probe,
            Some(false) => PollStep::Skip,
            None => {
                self.running = false;
                PollStep::Stop
            },
        }
    }
}

/// `n` requests queued before the poller drains any give exactly `n` probes,
/// one after another in arrival order, and the closing of the channel then
/// stops the poller.
pub proof fn lemma_requests_become_probes(n: nat)
    ensures
        poll_run(true, Seq::new(n, |i: int| Some(true)).push(None)) == Seq::new(n, |i: int| PollStep::Probe).push(
            PollStep::Stop,
        ),
    decreases n,
{
    let msgs = Seq::new(n, |i: int| Some(true)).push(None);
    if n == 0 {
        assert(msgs[0] == None::<bool>);
        assert(msgs.drop_first() =~= Seq::<Option<bool>>::empty());
        assert(poll_run(false, Seq::<Option<bool>>::empty()) == Seq::<PollStep>::empty());
        assert(poll_run(true, msgs) =~= seq![PollStep::Stop]);
    } else {
        lemma_requests_become_probes((n - 1) as nat);
        assert(msgs[0] == Some(true));
        assert(msgs.drop_first() =~= Seq::new((n - 1) as nat, |i: int| Some(true)).push(None));
        assert(poll_run(true, msgs) =~= Seq::new(n, |i: int| PollStep::Probe).push(PollStep::Stop));
    }
}

} // verus!
