//! The accept loop of the socket daemon.
//!
//! An [`AcceptLoop`] says which action comes next and takes in how it went; whoever drives it
//! owns the descriptors and the threads. At most [`MAX_CONCURRENT_DUMPS`] dumps are processed
//! at a time; further connections wait in the kernel's backlog.
use vstd::prelude::*;

use crate::poll::PollFd;

verus! {

/// Upper bound on dumps that are processed concurrently.
pub const MAX_CONCURRENT_DUMPS: usize = 4;

/// A descriptor that the loop waits on.
#[derive(Debug, Clone, Copy, PartialEq, Eq, Structural)]
pub enum Source {
    SignalPipe,
    WakePipe,
    Listener,
}

/// Why the loop ended, other than by a shutdown.
#[derive(Debug, Clone, Copy, PartialEq, Eq, Structural)]
pub enum Fatal {
    /// Waiting failed.
    Poll,
    /// A descriptor has an error condition.
    Broken(Source),
    /// Accepting failed for good.
    Accept,
}

/// Why a connection was not accepted.
#[derive(Debug, Clone, Copy, PartialEq, Eq, Structural)]
pub enum AcceptFailure {
    WouldBlock,
    ConnectionAborted,
    Interrupted,
    Other,
}

/// What the loop does next.
#[derive(Debug, Clone, Copy, PartialEq, Eq, Structural)]
pub enum Phase {
    /// Wait on the signal pipe, the wake pipe and, unless all slots are taken, the listener.
    Poll,
    /// Empty the wake pipe.
    DrainWake,
    /// Accept a connection.
    Accept,
    /// Clone the wake pipe for a worker.
    CloneWake,
    /// Handle the connection on this thread.
    HandleInline,
    /// Spawn a worker for the connection.
    Spawn,
    /// Join every worker.
    Join,
    /// The loop has ended.
    Done,
}

/// How an action of the loop went.
#[derive(Debug, Clone, Copy)]
pub enum LoopReply {
    /// The wait ended. A descriptor that was not waited on is given with nothing set.
    Polled { signal: PollFd, wake: PollFd, listener: PollFd },
    /// The action succeeded.
    Done,
    /// A connection was not accepted.
    NotAccepted(AcceptFailure),
    /// The action failed.
    Failed,
}

/// The loop as its users see it.
pub struct LoopState {
    /// Slots that are taken
    pub active: nat,
    /// Workers that hold a slot
    pub running: nat,
    pub phase: Phase,
    /// A connection waits, and there was a free slot for it
    pub listener_ready: bool,
    pub fatal: Option<Fatal>,
}

/// A worker that ended, or the reply to an action.
pub enum LoopEvent {
    Released(nat),
    Replied(LoopReply),
}

impl AcceptFailure {
    /// Whether the next connection may be accepted all the same.
    pub open spec fn transient(self) -> bool {
        self !is Other
    }

    fn is_transient(self) -> (r: bool)
        ensures
            r == self.transient(),
    {
        match self {
            AcceptFailure::WouldBlock
            | AcceptFailure::ConnectionAborted
            | AcceptFailure::Interrupted => true,
            AcceptFailure::Other => false,
        }
    }
}

impl Source {
    /// The name of the descriptor.
    pub open spec fn text(self) -> Seq<char> {
        match self {
            Source::SignalPipe => "signal pipe"@,
            Source::WakePipe => "worker wake pipe"@,
            Source::Listener => "listener socket"@,
        }
    }

    /// What is said of an error condition on the descriptor.
    pub fn error_message(self) -> (r: String)
        ensures
            r@ == "poll reported an error condition on the "@ + self.text(),
    {
        let name = match self {
            Source::SignalPipe => "signal pipe",
            Source::WakePipe => "worker wake pipe",
            Source::Listener => "listener socket",
        };
        "poll reported an error condition on the ".to_owned().concat(name)
    }
}

/// The first descriptor with an error condition.
pub open spec fn broken_source(signal: PollFd, wake: PollFd, listener: PollFd) -> Option<Source> {
    if signal.is_broken() {
        Some(Source::SignalPipe)
    } else if wake.is_broken() {
        Some(Source::WakePipe)
    } else if listener.is_broken() {
        Some(Source::Listener)
    } else {
        None
    }
}

impl LoopState {
    /// A loop that has not begun.
    pub open spec fn fresh(self) -> bool {
        self.active == 0 && self.running == 0 && self.phase is Poll && !self.listener_ready
            && self.fatal is None
    }

    /// Whether all slots are taken.
    pub open spec fn at_capacity(self) -> bool {
        self.active >= MAX_CONCURRENT_DUMPS
    }

    /// Whether a slot is taken for a connection that no worker has yet.
    pub open spec fn in_hand(self) -> nat {
        if self.phase is HandleInline || self.phase is Spawn {
            1
        } else {
            0
        }
    }

    /// Every slot that is taken is held by a worker or by the connection in hand, there are
    /// never more than allowed, and a connection is accepted only with a slot to spare.
    pub open spec fn wf(self) -> bool {
        &&& self.active == self.running + self.in_hand()
        &&& self.active <= MAX_CONCURRENT_DUMPS
        &&& (self.phase is Accept || self.phase is CloneWake || self.listener_ready)
            ==> !self.at_capacity()
        &&& self.listener_ready ==> self.phase is DrainWake
        &&& self.fatal is Some ==> self.phase is Join || self.phase is Done
    }

    /// The loop on its way out.
    pub open spec fn leaving(self, fatal: Option<Fatal>) -> LoopState {
        LoopState { phase: Phase::Join, fatal, ..self }
    }

    /// The loop after a wait.
    pub open spec fn polled(self, signal: PollFd, wake: PollFd, listener: PollFd) -> LoopState {
        let waiting = !self.at_capacity() && listener.has_data();
        if signal.has_data() {
            self.leaving(None)
        } else if let Some(source) = broken_source(signal, wake, listener) {
            self.leaving(Some(Fatal::Broken(source)))
        } else if wake.has_data() {
            LoopState { phase: Phase::DrainWake, listener_ready: waiting, ..self }
        } else if waiting {
            LoopState { phase: Phase::Accept, ..self }
        } else {
            self
        }
    }

    /// The loop after the reply to its action.
    pub open spec fn after(self, reply: LoopReply) -> LoopState {
        match self.phase {
            Phase::Poll => match reply {
                LoopReply::Polled { signal, wake, listener } => self.polled(signal, wake, listener),
                _ => self.leaving(Some(Fatal::Poll)),
            },
            Phase::DrainWake => LoopState {
                phase: if self.listener_ready {
                    Phase::Accept
                } else {
                    Phase::Poll
                },
                listener_ready: false,
                ..self
            },
            Phase::Accept => match reply {
                LoopReply::Done => LoopState { phase: Phase::CloneWake, ..self },
                LoopReply::NotAccepted(e) if e.transient() => LoopState {
                    phase: Phase::Poll,
                    ..self
                },
                _ => self.leaving(Some(Fatal::Accept)),
            },
            Phase::CloneWake => LoopState {
                active: self.active + 1,
                phase: if reply is Done {
                    Phase::Spawn
                } else {
                    Phase::HandleInline
                },
                ..self
            },
            Phase::HandleInline => LoopState {
                active: (self.active - 1) as nat,
                phase: Phase::Poll,
                ..self
            },
            Phase::Spawn => if reply is Done {
                LoopState { running: self.running + 1, phase: Phase::Poll, ..self }
            } else {
                LoopState { active: (self.active - 1) as nat, phase: Phase::Poll, ..self }
            },
            Phase::Join => LoopState { phase: Phase::Done, ..self },
            Phase::Done => self,
        }
    }

    /// The loop after `n` workers have ended; no more can end than run.
    pub open spec fn released(self, n: nat) -> LoopState {
        let k = if n < self.running {
            n
        } else {
            self.running
        };
        LoopState {
            active: (self.active - k) as nat,
            running: (self.running - k) as nat,
            ..self
        }
    }

    /// The loop after an event.
    pub open spec fn after_event(self, event: LoopEvent) -> LoopState {
        match event {
            LoopEvent::Released(n) => self.released(n),
            LoopEvent::Replied(reply) => self.after(reply),
        }
    }

    /// The loop after a sequence of events.
    pub open spec fn after_all(self, events: Seq<LoopEvent>) -> LoopState
        decreases events.len(),
    {
        if events.len() == 0 {
            self
        } else {
            self.after_all(events.drop_last()).after_event(events.last())
        }
    }
}

/// The state of the accept loop.
#[derive(Debug)]
pub struct AcceptLoop {
    active: usize,
    running: usize,
    phase: Phase,
    listener_ready: bool,
    fatal: Option<Fatal>,
}

impl View for AcceptLoop {
    type V = LoopState;

    closed spec fn view(&self) -> LoopState {
        LoopState {
            active: self.active as nat,
            running: self.running as nat,
            phase: self.phase,
            listener_ready: self.listener_ready,
            fatal: self.fatal,
        }
    }
}

impl AcceptLoop {
    #[verifier::type_invariant]
    closed spec fn inv(self) -> bool {
        self@.wf()
    }

    /// A loop with all slots free.
    pub fn new() -> (r: Self)
        ensures
            r@.fresh(),
            r@.wf(),
            r@.active == 0 && r@.running == 0,
            r@.phase is Poll,
            !r@.listener_ready,
            r@.fatal is None,
    {
        AcceptLoop {
            active: 0,
            running: 0,
            phase: Phase::Poll,
            listener_ready: false,
            fatal: None,
        }
    }

    /// What the loop does next.
    pub fn phase(&self) -> (r: Phase)
        ensures
            r == self@.phase,
            self@.wf(),
    {
        proof {
            use_type_invariant(self);
        }
        self.phase
    }

    /// Whether the wait is to take in the listener: only while there is a free slot, so that
    /// connections beyond the bound stay in the backlog.
    pub fn watches_listener(&self) -> (r: bool)
        ensures
            r == !self@.at_capacity(),
    {
        self.active < MAX_CONCURRENT_DUMPS
    }

    /// How the loop ended: by a shutdown, or by an error.
    pub fn outcome(&self) -> (r: Result<(), Fatal>)
        ensures
            r == match self@.fatal {
                Some(fatal) => Err::<(), Fatal>(fatal),
                None => Ok(()),
            },
    {
        match self.fatal {
            Some(fatal) => Err(fatal),
            None => Ok(()),
        }
    }

    /// Takes in that `n` workers have ended.
    pub fn release(&mut self, n: usize)
        ensures
            final(self)@ == old(self)@.released(n as nat),
            final(self)@.wf(),
    {
        proof {
            use_type_invariant(&*self);
        }
        let k = if n < self.running {
            n
        } else {
            self.running
        };
        *self = AcceptLoop {
            active: self.active - k,
            running: self.running - k,
            phase: self.phase,
            listener_ready: self.listener_ready,
            fatal: self.fatal,
        };
    }

    /// Takes in how the last action went.
    pub fn step(&mut self, reply: LoopReply)
        ensures
            final(self)@ == old(self)@.after(reply),
            final(self)@.wf(),
    {
        proof {
            use_type_invariant(&*self);
        }
        let mut active = self.active;
        let mut running = self.running;
        let mut phase = self.phase;
        let mut listener_ready = self.listener_ready;
        let mut fatal = self.fatal;
        match self.phase {
            Phase::Poll => match reply {
                LoopReply::Polled { signal, wake, listener } => {
                    let waiting = active < MAX_CONCURRENT_DUMPS && listener.is_readable();
                    if signal.is_readable() {
                        phase = Phase::Join;
                    } else if signal.has_error() {
                        phase = Phase::Join;
                        fatal = Some(Fatal::Broken(Source::SignalPipe));
                    } else if wake.has_error() {
                        phase = Phase::Join;
                        fatal = Some(Fatal::Broken(Source::WakePipe));
                    } else if listener.has_error() {
                        phase = Phase::Join;
                        fatal = Some(Fatal::Broken(Source::Listener));
                    } else if wake.is_readable() {
                        phase = Phase::DrainWake;
                        listener_ready = waiting;
                    } else if waiting {
                        phase = Phase::Accept;
                    }
                },
                _ => {
                    phase = Phase::Join;
                    fatal = Some(Fatal::Poll);
                },
            },
            Phase::DrainWake => {
                phase = if listener_ready {
                    Phase::Accept
                } else {
                    Phase::Poll
                };
                listener_ready = false;
            },
            Phase::Accept => match reply {
                LoopReply::Done => {
                    phase = Phase::CloneWake;
                },
                LoopReply::NotAccepted(e) if e.is_transient() => {
                    phase = Phase::Poll;
                },
                _ => {
                    phase = Phase::Join;
                    fatal = Some(Fatal::Accept);
                },
            },
            Phase::CloneWake => {
                active += 1;
                phase = match reply {
                    LoopReply::Done => Phase::Spawn,
                    _ => Phase::HandleInline,
                };
            },
            Phase::HandleInline => {
                active -= 1;
                phase = Phase::Poll;
            },
            Phase::Spawn => {
                match reply {
                    LoopReply::Done => {
                        running += 1;
                    },
                    _ => {
                        active -= 1;
                    },
                }
                phase = Phase::Poll;
            },
            Phase::Join => {
                phase = Phase::Done;
            },
            Phase::Done => {},
        }
        *self = AcceptLoop { active, running, phase, listener_ready, fatal };
    }
}

/// Whatever happens, no more dumps are processed at a time than allowed, and every slot that
/// is taken has somebody who gives it back.
pub proof fn law_bounded(start: LoopState, events: Seq<LoopEvent>)
    requires
        start.fresh(),
    ensures
        start.after_all(events).wf(),
        start.after_all(events).active <= MAX_CONCURRENT_DUMPS,
    decreases events.len(),
{
    if events.len() > 0 {
        law_bounded(start, events.drop_last());
    }
}

/// A connection is accepted only with a slot to spare.
pub proof fn law_accepts_below_capacity(start: LoopState, events: Seq<LoopEvent>)
    requires
        start.fresh(),
        start.after_all(events).phase is Accept,
    ensures
        start.after_all(events).active < MAX_CONCURRENT_DUMPS,
{
    law_bounded(start, events);
}

/// Every way out of the loop joins the workers: the loop ends only with the reply to that.
pub proof fn law_exit_joins_workers(start: LoopState, events: Seq<LoopEvent>)
    requires
        start.fresh(),
        start.after_all(events).phase is Done,
    ensures
        exists|i: int|
            0 <= i < events.len() && (#[trigger] start.after_all(events.take(i))).phase is Join
                && events[i] is Replied,
    decreases events.len(),
{
    let init = events.drop_last();
    let n = events.len() - 1;
    assert(events.take(n) == init);
    if start.after_all(init).phase is Done {
        law_exit_joins_workers(start, init);
        let i = choose|i: int|
            0 <= i < init.len() && (#[trigger] start.after_all(init.take(i))).phase is Join
                && init[i] is Replied;
        assert(init.take(i) == events.take(i));
        assert(events[i] is Replied);
    } else {
        assert(start.after_all(events.take(n)).phase is Join);
    }
}

/// Once the loop leaves, it accepts nothing more, and its outcome stays.
pub proof fn law_leaving_is_final(s: LoopState, events: Seq<LoopEvent>)
    requires
        s.phase is Join || s.phase is Done,
    ensures
        s.after_all(events).phase is Join || s.after_all(events).phase is Done,
        s.after_all(events).fatal == s.fatal,
    decreases events.len(),
{
    if events.len() > 0 {
        law_leaving_is_final(s, events.drop_last());
    }
}

/// A shutdown comes before everything else that a wait reports, and is no error.
pub proof fn law_shutdown_first(s: LoopState, signal: PollFd, wake: PollFd, listener: PollFd)
    requires
        s.wf(),
        s.phase is Poll,
        signal.has_data(),
    ensures
        s.after(LoopReply::Polled { signal, wake, listener }).phase is Join,
        s.after(LoopReply::Polled { signal, wake, listener }).fatal is None,
{
}

/// An error condition on any descriptor ends the loop, so that it never spins on it.
pub proof fn law_broken_descriptor_ends(
    s: LoopState,
    signal: PollFd,
    wake: PollFd,
    listener: PollFd,
)
    requires
        s.phase is Poll,
        signal.is_broken() || wake.is_broken() || listener.is_broken(),
    ensures
        s.after(LoopReply::Polled { signal, wake, listener }).phase is Join,
{
}

/// A connection that was accepted gets a worker or is handled on the spot, even where the
/// wake pipe cannot be cloned.
pub proof fn law_accepted_is_served(s: LoopState, reply: LoopReply)
    requires
        s.phase is CloneWake,
    ensures
        s.after(reply).phase is Spawn || s.after(reply).phase is HandleInline,
        s.after(reply).active == s.active + 1,
{
}

/// A slot is given back however the connection ends: a connection that was handled on the
/// spot or found no worker, and a worker that ended, leave as many slots taken as before.
pub proof fn law_slot_comes_back(s: LoopState, cloned: LoopReply, reply: LoopReply)
    requires
        s.wf(),
        s.phase is CloneWake,
    ensures
        ({
            let t = s.after(cloned).after(reply);
            if t.running > s.running {
                t.released(1).active == s.active
            } else {
                t.active == s.active
            }
        }),
{
}

/// With all slots taken, the end of one worker is enough for the loop to listen again: the
/// daemon is never stuck at its bound.
pub proof fn law_one_end_frees_a_slot(start: LoopState, events: Seq<LoopEvent>, n: nat)
    requires
        start.fresh(),
        start.after_all(events).phase is Poll,
        n > 0,
    ensures
        start.after_all(events).at_capacity() ==> start.after_all(events).running > 0,
        !start.after_all(events).released(n).at_capacity(),
{
    law_bounded(start, events);
}

/// The loop leaves only for a cause: it goes on to join its workers exactly if the wait failed,
/// the signal pipe is readable, a descriptor has an error condition, or accepting failed for
/// good.
pub proof fn law_leaves_only_for_a_cause(s: LoopState, reply: LoopReply)
    requires
        s.phase !is Join,
        s.phase !is Done,
    ensures
        s.after(reply).phase !is Done,
        s.after(reply).phase is Join <==> match s.phase {
            Phase::Poll => match reply {
                LoopReply::Polled { signal, wake, listener } => {
                    ||| signal.revents & 0x39 != 0
                    ||| wake.revents & 0x38 != 0
                    ||| listener.revents & 0x38 != 0
                },
                _ => true,
            },
            Phase::Accept => match reply {
                LoopReply::Done => false,
                LoopReply::NotAccepted(e) => e is Other,
                _ => true,
            },
            _ => false,
        },
        s.after(reply).phase is Join ==> s.after(reply).active == s.active && s.after(reply).running
            == s.running,
{
    if let LoopReply::Polled { signal, wake, listener } = reply {
        crate::poll::law_revents(signal);
        crate::poll::law_revents(wake);
        crate::poll::law_revents(listener);
        let r = signal.revents;
        assert(r & 0x39i16 != 0 <==> (r & 0x1i16 != 0 || r & 0x38i16 != 0)) by (bit_vector);
    }
}

/// Why the loop left: a readable signal pipe is no error; then the first broken descriptor
/// counts, in the order signal pipe, wake pipe, listener. A failed wait and a failed accept
/// tell themselves, and a loop that goes on has no error.
pub proof fn law_outcome_tells_the_cause(
    s: LoopState,
    signal: PollFd,
    wake: PollFd,
    listener: PollFd,
    reply: LoopReply,
)
    requires
        s.fatal is None,
    ensures
        s.phase is Poll ==> {
            let t = s.after(LoopReply::Polled { signal, wake, listener });
            t.fatal == if signal.revents & 0x1 != 0 {
                None
            } else if signal.revents & 0x38 != 0 {
                Some(Fatal::Broken(Source::SignalPipe))
            } else if wake.revents & 0x38 != 0 {
                Some(Fatal::Broken(Source::WakePipe))
            } else if listener.revents & 0x38 != 0 {
                Some(Fatal::Broken(Source::Listener))
            } else {
                None
            }
        },
        s.phase is Poll && reply !is Polled ==> s.after(reply).fatal == Some(Fatal::Poll),
        s.phase is Accept && s.after(reply).phase is Join ==> s.after(reply).fatal == Some(
            Fatal::Accept,
        ),
        s.phase !is Poll && s.after(reply).phase !is Join ==> s.after(reply).fatal is None,
{
    crate::poll::law_revents(signal);
    crate::poll::law_revents(wake);
    crate::poll::law_revents(listener);
}

/// A wait that gives no cause to leave leads on: a readable wake pipe is drained, and a
/// connection below the bound is accepted, after draining where both are there. With neither,
/// the loop waits again. No slot changes hands.
pub proof fn law_wait_leads_on(
    s: LoopState,
    signal: PollFd,
    wake: PollFd,
    listener: PollFd,
    drained: LoopReply,
)
    requires
        s.phase is Poll,
        !s.listener_ready,
        signal.revents & 0x39 == 0,
        wake.revents & 0x38 == 0,
        listener.revents & 0x38 == 0,
    ensures
        ({
            let t = s.after(LoopReply::Polled { signal, wake, listener });
            let connection = s.active < 4 && listener.revents & 0x1 != 0;
            &&& t.active == s.active && t.running == s.running && t.fatal == s.fatal
            &&& if wake.revents & 0x1 != 0 {
                let u = t.after(drained);
                &&& t.phase is DrainWake
                &&& connection ==> u.phase is Accept
                &&& !connection ==> u.phase is Poll
                &&& u.active == s.active && u.running == s.running && u.fatal == s.fatal
                &&& !u.listener_ready
            } else {
                &&& connection ==> t.phase is Accept
                &&& !connection ==> t.phase is Poll
                &&& !t.listener_ready
            }
        }),
{
    crate::poll::law_revents(signal);
    crate::poll::law_revents(wake);
    crate::poll::law_revents(listener);
    let r = signal.revents;
    assert(r & 0x39i16 == 0 ==> r & 0x1i16 == 0 && r & 0x38i16 == 0) by (bit_vector);
}

/// What becomes of a connection: once accepted it is given to a worker, or handled on the spot
/// where the wake pipe cannot be cloned; it takes one slot, which a worker keeps and everything
/// else gives back. The loop then waits again. An attempt that failed in passing takes nothing.
pub proof fn law_connection_is_served(
    s: LoopState,
    passing: AcceptFailure,
    not_done: LoopReply,
    any: LoopReply,
)
    requires
        s.wf(),
        s.phase is Accept,
        passing !is Other,
        not_done !is Done,
    ensures
        ({
            let accepted = s.after(LoopReply::Done);
            let spawning = accepted.after(LoopReply::Done);
            let inline = accepted.after(not_done);
            let waiting = LoopState { phase: Phase::Poll, ..s };
            &&& s.after(LoopReply::NotAccepted(passing)) == waiting
            &&& accepted == LoopState { phase: Phase::CloneWake, ..s }
            &&& spawning == LoopState { phase: Phase::Spawn, active: s.active + 1, ..s }
            &&& inline == LoopState { phase: Phase::HandleInline, active: s.active + 1, ..s }
            &&& inline.after(any) == waiting
            &&& spawning.after(not_done) == waiting
            &&& spawning.after(LoopReply::Done) == LoopState {
                active: s.active + 1,
                running: s.running + 1,
                ..waiting
            }
        }),
{
}

/// Ended workers give back their slots, one each and no more than run, and nothing else changes.
pub proof fn law_released(s: LoopState, n: nat)
    requires
        s.active >= s.running,
    ensures
        ({
            let t = s.released(n);
            &&& n <= s.running ==> t.running == s.running - n && t.active == s.active - n
            &&& n > s.running ==> t.running == 0 && t.active == s.active - s.running
            &&& t.phase == s.phase && t.listener_ready == s.listener_ready && t.fatal == s.fatal
        }),
{
}

/// Joining the workers ends the loop, whatever came of it, and an ended loop stays as it is.
pub proof fn law_join_ends(s: LoopState, reply: LoopReply)
    ensures
        s.phase is Join ==> s.after(reply) == (LoopState { phase: Phase::Done, ..s }),
        s.phase is Done ==> s.after(reply) == s,
{
}

/// All slots are taken from the fourth on.
pub proof fn law_capacity(s: LoopState)
    ensures
        s.at_capacity() <==> s.active >= 4,
{
}

} // verus!
