//! The life of one `POST /bp` request once it is registered as in flight: get the
//! shared session, browse in a tab of its own, leave the in-flight set, put the
//! session back in its neutral state when that left the set empty, and answer.
//!
//! The caller performs each action and reports how it went. It holds the lock that
//! guards the in-flight set from `Release` until the answer, so that no request is
//! admitted between the emptiness check and the neutralization.
use vstd::prelude::*;
use crate::error::BrowseError;

verus! {

/// What the request asks of the caller next.
#[derive(Debug, PartialEq, Eq)]
pub enum FlowAction {
    /// Get a responsive session from the registry; answered by `Done` or `Failed`.
    AcquireSession,
    /// Run the tab processor on the session, holding exclusive use of its tabs;
    /// answered by `Browsed`.
    Browse,
    /// Remove the request from the in-flight set; answered by `Released`.
    Release,
    /// Delete the session's cookies; answered by `Done` or `Failed`.
    ClearCookies,
    /// Load the default page in the session's active window; answered by `Done` or `Failed`.
    Park,
    /// Answer the client with the response for this result.
    Respond(Result<String, BrowseError>),
}

/// How the last action went.
#[derive(Debug, PartialEq, Eq)]
pub enum FlowEvent {
    Done,
    Failed(String),
    Browsed(Result<String, BrowseError>),
    /// Whether removing the request left the in-flight set empty.
    Released(bool),
}

/// Where a request stands, with the result once it is known.
#[derive(Debug, PartialEq, Eq)]
pub enum FlowPhase {
    Acquiring,
    Browsing,
    Releasing(Result<String, BrowseError>),
    Reacquiring(Result<String, BrowseError>),
    Clearing(Result<String, BrowseError>),
    Parking(Result<String, BrowseError>),
    Answered(Result<String, BrowseError>),
}

pub struct RequestFlow {
    pub phase: FlowPhase,
}

/// Whether `ev` reports on the action that `phase` waits for.
pub open spec fn reports_on(phase: FlowPhase, ev: FlowEvent) -> bool {
    match phase {
        FlowPhase::Acquiring | FlowPhase::Reacquiring(_) | FlowPhase::Clearing(_) | FlowPhase::Parking(_) =>
            ev is Done || ev is Failed,
        FlowPhase::Browsing => ev is Browsed,
        FlowPhase::Releasing(_) => ev is Released,
        FlowPhase::Answered(_) => false,
    }
}

/// Whether no session could be had for the request. Such a request is answered
/// as soon as it leaves the in-flight set: another attempt is left to later requests.
pub open spec fn failed_session(r: Result<String, BrowseError>) -> bool {
    r matches Err(BrowseError::SessionCreation(_))
}

/// The phase after `ev`, which reports on the action that `phase` waits for.
/// Failures while neutralizing the session leave the result as it was.
pub open spec fn flow_advance(phase: FlowPhase, ev: FlowEvent) -> FlowPhase {
    match phase {
        FlowPhase::Acquiring => match ev {
            FlowEvent::Failed(m) => FlowPhase::Releasing(Err(BrowseError::SessionCreation(m))),
            _ => FlowPhase::Browsing,
        },
        FlowPhase::Browsing => match ev {
            FlowEvent::Browsed(r) => FlowPhase::Releasing(r),
            _ => phase,
        },
        FlowPhase::Releasing(r) => match ev {
            FlowEvent::Released(idle) => if idle && !failed_session(r) {
                FlowPhase::Reacquiring(r)
            } else {
                FlowPhase::Answered(r)
            },
            _ => phase,
        },
        FlowPhase::Reacquiring(r) => match ev {
            FlowEvent::Done => FlowPhase::Clearing(r),
            _ => FlowPhase::Answered(r),
        },
        FlowPhase::Clearing(r) => FlowPhase::Parking(r),
        FlowPhase::Parking(r) => FlowPhase::Answered(r),
        FlowPhase::Answered(_) => phase,
    }
}

/// The action that a request in `phase` waits on.
pub open spec fn flow_pending(phase: FlowPhase) -> FlowAction {
    match phase {
        FlowPhase::Acquiring => FlowAction::AcquireSession,
        FlowPhase::Browsing => FlowAction::Browse,
        FlowPhase::Releasing(_) => FlowAction::Release,
        FlowPhase::Reacquiring(_) => FlowAction::AcquireSession,
        FlowPhase::Clearing(_) => FlowAction::ClearCookies,
        FlowPhase::Parking(_) => FlowAction::Park,
        FlowPhase::Answered(r) => FlowAction::Respond(r),
    }
}

impl RequestFlow {
    pub open spec fn waits_on(self) -> FlowAction {
        flow_pending(self.phase)
    }

    /// The flow after `ev`; an event that does not report on the pending action changes nothing.
    pub open spec fn after(self, ev: FlowEvent) -> RequestFlow {
        if reports_on(self.phase, ev) {
            RequestFlow { phase: flow_advance(self.phase, ev) }
        } else {
            self
        }
    }

    /// A registered request; its first action gets the session.
    pub fn new() -> (r: RequestFlow)
        ensures
            r.phase is Acquiring,
            r.waits_on() is AcquireSession,
    {
        RequestFlow { phase: FlowPhase::Acquiring }
    }

    /// The action this request waits on.
    pub fn next_action(&self) -> (r: FlowAction)
        ensures
            r == self.waits_on(),
    {
        match &self.phase {
            FlowPhase::Acquiring => FlowAction::AcquireSession,
            FlowPhase::Browsing => FlowAction::Browse,
            FlowPhase::Releasing(_) => FlowAction::Release,
            FlowPhase::Reacquiring(_) => FlowAction::AcquireSession,
            FlowPhase::Clearing(_) => FlowAction::ClearCookies,
            FlowPhase::Parking(_) => FlowAction::Park,
            FlowPhase::Answered(r) => FlowAction::Respond(match r {
                Ok(s) => Ok(s.clone()),
                Err(e) => Err(e.clone()),
            }),
        }
    }

    /// Takes the report on the pending action and returns the next action.
    pub fn step(&mut self, ev: FlowEvent) -> (r: FlowAction)
        ensures
            *final(self) == old(self).after(ev),
            r == final(self).waits_on(),
    {
        let reported = match (&self.phase, &ev) {
            (FlowPhase::Acquiring, FlowEvent::Done) => true,
            (FlowPhase::Acquiring, FlowEvent::Failed(_)) => true,
            (FlowPhase::Reacquiring(_), FlowEvent::Done) => true,
            (FlowPhase::Reacquiring(_), FlowEvent::Failed(_)) => true,
            (FlowPhase::Clearing(_), FlowEvent::Done) => true,
            (FlowPhase::Clearing(_), FlowEvent::Failed(_)) => true,
            (FlowPhase::Parking(_), FlowEvent::Done) => true,
            (FlowPhase::Parking(_), FlowEvent::Failed(_)) => true,
            (FlowPhase::Browsing, FlowEvent::Browsed(_)) => true,
            (FlowPhase::Releasing(_), FlowEvent::Released(_)) => true,
            _ => false,
        };
        if reported {
            let mut phase = FlowPhase::Acquiring;
            core::mem::swap(&mut phase, &mut self.phase);
            self.phase = match phase {
                FlowPhase::Acquiring => match ev {
                    FlowEvent::Failed(m) => FlowPhase::Releasing(Err(BrowseError::SessionCreation(m))),
                    _ => FlowPhase::Browsing,
                },
                FlowPhase::Browsing => match ev {
                    FlowEvent::Browsed(r) => FlowPhase::Releasing(r),
                    _ => FlowPhase::Browsing,
                },
                FlowPhase::Releasing(r) => match ev {
                    FlowEvent::Released(idle) => if idle && !matches!(r, Err(BrowseError::SessionCreation(_))) {
                        FlowPhase::Reacquiring(r)
                    } else {
                        FlowPhase::Answered(r)
                    },
                    _ => FlowPhase::Releasing(r),
                },
                FlowPhase::Reacquiring(r) => match ev {
                    FlowEvent::Done => FlowPhase::Clearing(r),
                    _ => FlowPhase::Answered(r),
                },
                FlowPhase::Clearing(r) => FlowPhase::Parking(r),
                FlowPhase::Parking(r) => FlowPhase::Answered(r),
                FlowPhase::Answered(r) => FlowPhase::Answered(r),
            };
        }
        self.next_action()
    }
}

} // verus!

verus! {

/// When a request that had a session leaves the in-flight set empty, the session is
/// fetched, its cookies are cleared and it is parked on the default page before
/// the answer, whatever the cookie call reports; a request that leaves others in
/// flight answers at once. Neither changes the result.
pub proof fn lemma_idle_release_neutralizes(r: Result<String, BrowseError>, cookie_report: FlowEvent, park_report: FlowEvent)
    requires
        !failed_session(r),
        cookie_report is Done || cookie_report is Failed,
        park_report is Done || park_report is Failed,
    ensures
        ({
            let f0 = RequestFlow { phase: FlowPhase::Releasing(r) };
            let f1 = f0.after(FlowEvent::Released(true));
            let f2 = f1.after(FlowEvent::Done);
            let f3 = f2.after(cookie_report);
            &&& f0.waits_on() is Release
            &&& f1.waits_on() is AcquireSession
            &&& f2.waits_on() is ClearCookies
            &&& f3.waits_on() is Park
            &&& f3.after(park_report).waits_on() == FlowAction::Respond(r)
            &&& f0.after(FlowEvent::Released(false)).waits_on() == FlowAction::Respond(r)
        }),
{
}

/// A request whose session cannot be had still leaves the in-flight set, and is
/// answered with the session creation error right after, even when it was the
/// last one in flight.
pub proof fn lemma_session_failure_releases(msg: String, idle: bool)
    ensures
        (RequestFlow { phase: FlowPhase::Acquiring }).after(FlowEvent::Failed(msg))
            .after(FlowEvent::Released(idle)).waits_on()
            == FlowAction::Respond(Err(BrowseError::SessionCreation(msg))),
        (RequestFlow { phase: FlowPhase::Acquiring }).after(FlowEvent::Failed(msg)).waits_on() is Release,
        (RequestFlow { phase: FlowPhase::Acquiring }).after(FlowEvent::Failed(msg)).phase
            == FlowPhase::Releasing(Err(BrowseError::SessionCreation(msg))),
{
}

} // verus!
