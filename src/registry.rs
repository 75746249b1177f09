//! The process-wide holder of at most one live browser session. A request asks it
//! for a session; it probes the one it holds and replaces it when the probe fails.
//!
//! `S` is the caller's session handle. The caller performs the backend calls and
//! holds the creation lock for the whole acquisition, so that two requests never
//! connect two sessions at once.
use vstd::prelude::*;

verus! {

/// What the registry asks of the caller next.
#[derive(Debug, PartialEq, Eq)]
pub enum SessionAction {
    /// Nothing is in progress: call `acquire`.
    Acquire,
    /// Make a cheap call (read the title) on the current session; answered by `probed`.
    Probe,
    /// Start a new headless session with sandboxing disabled; answered by `connected`.
    Connect,
    /// Load the default page in the new session; answered by `parked`.
    Park,
    /// Use the current session.
    Use,
    /// No session could be created; the backend's message.
    Fail(String),
}

#[derive(Debug, PartialEq, Eq)]
pub enum Stage {
    Idle,
    Probing,
    Connecting,
    Parking,
    Ready,
    Failed(String),
}

pub struct SessionRegistry<S> {
    /// The session requests share, if any.
    pub current: Option<S>,
    /// A session that was just connected and is not in use yet.
    pub fresh: Option<S>,
    pub stage: Stage,
}

/// The action that a registry at `stage` waits on.
pub open spec fn stage_action(stage: Stage) -> SessionAction {
    match stage {
        Stage::Idle => SessionAction::Acquire,
        Stage::Probing => SessionAction::Probe,
        Stage::Connecting => SessionAction::Connect,
        Stage::Parking => SessionAction::Park,
        Stage::Ready => SessionAction::Use,
        Stage::Failed(m) => SessionAction::Fail(m),
    }
}

impl<S> SessionRegistry<S> {
    pub open spec fn waits_on(self) -> SessionAction {
        stage_action(self.stage)
    }

    /// A request starts an acquisition: probe the session held, or connect one if none is.
    pub open spec fn started(self) -> SessionRegistry<S> {
        SessionRegistry {
            current: self.current,
            fresh: None,
            stage: if self.current is Some { Stage::Probing } else { Stage::Connecting },
        }
    }

    /// After the probe: a responsive session is used as it is; an unresponsive one is
    /// abandoned and a new one is connected.
    pub open spec fn after_probe(self, responsive: bool) -> SessionRegistry<S> {
        if !(self.stage is Probing) {
            self
        } else if responsive {
            SessionRegistry { stage: Stage::Ready, ..self }
        } else {
            SessionRegistry { current: None, stage: Stage::Connecting, ..self }
        }
    }

    /// After the connection attempt.
    pub open spec fn after_connect(self, outcome: Result<S, String>) -> SessionRegistry<S> {
        if !(self.stage is Connecting) {
            self
        } else {
            match outcome {
                Ok(s) => SessionRegistry { fresh: Some(s), stage: Stage::Parking, ..self },
                Err(m) => SessionRegistry { stage: Stage::Failed(m), ..self },
            }
        }
    }

    /// After the new session was sent to the default page: installed when that worked,
    /// dropped when it did not.
    pub open spec fn after_park(self, outcome: Result<(), String>) -> SessionRegistry<S> {
        if !(self.stage is Parking) {
            self
        } else {
            match outcome {
                Ok(_) => SessionRegistry { current: self.fresh, fresh: None, stage: Stage::Ready },
                Err(m) => SessionRegistry { fresh: None, stage: Stage::Failed(m), ..self },
            }
        }
    }

    /// An empty registry.
    pub fn new() -> (r: SessionRegistry<S>)
        ensures
            r.current is None,
            r.fresh is None,
            r.stage is Idle,
    {
        SessionRegistry { current: None, fresh: None, stage: Stage::Idle }
    }

    /// The action this registry waits on.
    pub fn next_action(&self) -> (r: SessionAction)
        ensures
            r == self.waits_on(),
    {
        match &self.stage {
            Stage::Idle => SessionAction::Acquire,
            Stage::Probing => SessionAction::Probe,
            Stage::Connecting => SessionAction::Connect,
            Stage::Parking => SessionAction::Park,
            Stage::Ready => SessionAction::Use,
            Stage::Failed(m) => SessionAction::Fail(m.clone()),
        }
    }

    /// Starts an acquisition.
    pub fn acquire(&mut self) -> (r: SessionAction)
        ensures
            *final(self) == old(self).started(),
            r == final(self).waits_on(),
    {
        self.fresh = None;
        if self.current.is_some() {
            self.stage = Stage::Probing;
        } else {
            self.stage = Stage::Connecting;
        }
        self.next_action()
    }

    /// Reports whether the probe of the current session succeeded.
    pub fn probed(&mut self, responsive: bool) -> (r: SessionAction)
        ensures
            *final(self) == old(self).after_probe(responsive),
            r == final(self).waits_on(),
    {
        if matches!(self.stage, Stage::Probing) {
            if responsive {
                self.stage = Stage::Ready;
            } else {
                self.current = None;
                self.stage = Stage::Connecting;
            }
        }
        self.next_action()
    }

    /// Reports the new session, or why none could be started.
    pub fn connected(&mut self, outcome: Result<S, String>) -> (r: SessionAction)
        ensures
            *final(self) == old(self).after_connect(outcome),
            r == final(self).waits_on(),
    {
        if matches!(self.stage, Stage::Connecting) {
            match outcome {
                Ok(s) => {
                    self.fresh = Some(s);
                    self.stage = Stage::Parking;
                },
                Err(m) => {
                    self.stage = Stage::Failed(m);
                },
            }
        }
        self.next_action()
    }

    /// Reports whether the new session loaded the default page.
    pub fn parked(&mut self, outcome: Result<(), String>) -> (r: SessionAction)
        ensures
            *final(self) == old(self).after_park(outcome),
            r == final(self).waits_on(),
    {
        if matches!(self.stage, Stage::Parking) {
            match outcome {
                Ok(_) => {
                    let mut fresh = None;
                    core::mem::swap(&mut fresh, &mut self.fresh);
                    self.current = fresh;
                    self.stage = Stage::Ready;
                },
                Err(m) => {
                    self.fresh = None;
                    self.stage = Stage::Failed(m);
                },
            }
        }
        self.next_action()
    }

    /// The session requests share.
    pub fn current(&self) -> (r: Option<&S>)
        ensures
            match r {
                Some(s) => self.current == Some(*s),
                None => self.current is None,
            },
    {
        match &self.current {
            Some(s) => Some(s),
            None => None,
        }
    }

    /// The session that was just connected and waits to be parked.
    pub fn fresh(&self) -> (r: Option<&S>)
        ensures
            match r {
                Some(s) => self.fresh == Some(*s),
                None => self.fresh is None,
            },
    {
        match &self.fresh {
            Some(s) => Some(s),
            None => None,
        }
    }
}

} // verus!

verus! {

/// The registry after `rounds` acquisitions in a row whose probes all succeed.
pub open spec fn healthy_rounds<S>(reg: SessionRegistry<S>, rounds: nat) -> SessionRegistry<S>
    decreases rounds,
{
    if rounds == 0 {
        reg
    } else {
        healthy_rounds(reg, (rounds - 1) as nat).started().after_probe(true)
    }
}

/// As long as probes succeed, every acquisition uses the session already held and
/// none connects a new one, however many requests come one after another.
pub proof fn lemma_healthy_session_reused<S>(reg: SessionRegistry<S>, rounds: nat)
    requires
        reg.current is Some,
    ensures
        healthy_rounds(reg, rounds).current == reg.current,
        rounds > 0 ==> healthy_rounds(reg, rounds).waits_on() is Use,
        rounds > 0 ==> healthy_rounds(reg, (rounds - 1) as nat).started().waits_on() is Probe,
    decreases rounds,
{
    if rounds > 0 {
        lemma_healthy_session_reused(reg, (rounds - 1) as nat);
    }
}

/// Two acquisitions in a row with a healthy session hand out the identical session
/// and create none.
pub proof fn lemma_acquire_idempotent<S>(reg: SessionRegistry<S>)
    requires
        reg.current is Some,
    ensures
        ({
            let once = reg.started().after_probe(true);
            let twice = once.started().after_probe(true);
            &&& once.waits_on() is Use
            &&& twice.waits_on() is Use
            &&& once.current == reg.current
            &&& twice.current == once.current
            &&& reg.started().waits_on() is Probe
            &&& once.started().waits_on() is Probe
        }),
{
}

/// After a failed probe the stale session is dropped at once, a new one is
/// connected, and once it is parked the acquisition hands out the new one.
pub proof fn lemma_failed_probe_replaces<S>(reg: SessionRegistry<S>, fresh: S)
    requires
        reg.current is Some,
    ensures
        ({
            let probed = reg.started().after_probe(false);
            let connected = probed.after_connect(Ok(fresh));
            let parked = connected.after_park(Ok(()));
            &&& probed.current is None
            &&& probed.waits_on() is Connect
            &&& connected.waits_on() is Park
            &&& connected.fresh == Some(fresh)
            &&& parked.waits_on() is Use
            &&& parked.current == Some(fresh)
        }),
{
}

/// A failed probe followed by a failed connection hands out no session: the stale
/// one is not given back.
pub proof fn lemma_failed_probe_never_returns_stale<S>(reg: SessionRegistry<S>, msg: String)
    requires
        reg.current is Some,
    ensures
        reg.started().after_probe(false).after_connect(Err(msg)).waits_on() == SessionAction::Fail(msg),
        reg.started().after_probe(false).after_connect(Err(msg)).current is None,
{
}

} // verus!
