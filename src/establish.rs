//! Sequencing of the full handshake. The flow decides, from each outcome
//! reported by the caller, what must be done next; the caller performs the
//! network round trips and engine operations and reports their outcomes.
use vstd::prelude::*;
use crate::ice::{normalize_all, spec_normalize_all};
use crate::peer::{
    answer_sdp_valid, offer_sdp_valid, NegotiationError, NegotiationState, PeerConnectionHandle,
};
use crate::sdp::{SdpDescriptor, SdpKind};
use crate::signaling::{sdp_path, spec_sdp_path, SessionOffer, SignalingError, StartStreamRequestBody};

verus! {

/// A session as the orchestrator tracks it.
#[derive(Clone, Debug)]
pub struct StreamSession {
    /// Identifies the session to the signaling server.
    pub remote_id: String,
    /// The server-issued token that accompanies the answer.
    pub correlation_id: String,
    pub state: NegotiationState,
}

/// The first failure of a handshake, from the stage that failed.
#[derive(Clone, Debug)]
pub enum EstablishError {
    Signaling(SignalingError),
    MalformedIceServer,
    Negotiation(NegotiationError),
    /// The peer-connection engine could not perform an operation.
    Engine(String),
}

/// The outcome of the operation last requested by the flow.
pub enum Event {
    SessionCreated(Result<SessionOffer, SignalingError>),
    PeerBuilt(Result<(), String>),
    RemoteOfferSet(Result<(), String>),
    AnswerCreated(Result<String, String>),
    LocalAnswerSet(Result<(), String>),
    AnswerSubmitted(Result<serde_json::Value, SignalingError>),
}

/// What the caller must do next.
pub enum Action {
    /// Create the remote session.
    CreateSession,
    /// Construct the engine's peer connection from the handle's ICE servers
    /// and identity.
    BuildPeer,
    /// Apply the handle's remote offer to the engine.
    SetRemoteOffer,
    /// Have the engine create an answer.
    CreateAnswer,
    /// Apply the handle's local answer to the engine.
    SetLocalAnswer,
    /// Post the body to the path.
    SubmitAnswer { path: String, body: StartStreamRequestBody },
    /// The session is established; the server's acknowledgement.
    Finished(serde_json::Value),
    /// The handshake is over, with this failure.
    Abort(EstablishError),
}

/// Where a handshake stands.
#[derive(Clone, Copy, Debug, PartialEq, Eq, Structural)]
pub enum Phase {
    AwaitingSession,
    AwaitingPeer,
    AwaitingRemoteSet,
    AwaitingAnswer,
    AwaitingLocalSet,
    AwaitingAck,
    Done,
    Failed,
}

/// One handshake in progress.
pub struct EstablishFlow {
    phase: Phase,
    offer: Option<SessionOffer>,
    handle: Option<PeerConnectionHandle>,
    session: Option<StreamSession>,
    answer: Option<SdpDescriptor>,
}

/// The session state that a phase stands for.
pub open spec fn phase_state(p: Phase) -> NegotiationState {
    match p {
        Phase::AwaitingSession | Phase::AwaitingPeer => NegotiationState::Created,
        Phase::AwaitingRemoteSet | Phase::AwaitingAnswer => NegotiationState::OfferReceived,
        Phase::AwaitingLocalSet => NegotiationState::AnswerGenerated,
        Phase::AwaitingAck => NegotiationState::AnswerSent,
        Phase::Done => NegotiationState::Established,
        Phase::Failed => NegotiationState::Failed,
    }
}

/// The state of the handle during a phase in which the handshake goes on.
pub open spec fn phase_handle_state(p: Phase) -> NegotiationState {
    match p {
        Phase::AwaitingRemoteSet | Phase::AwaitingAnswer => NegotiationState::OfferReceived,
        Phase::AwaitingLocalSet | Phase::AwaitingAck | Phase::Done => NegotiationState::AnswerGenerated,
        _ => NegotiationState::Created,
    }
}

impl EstablishFlow {
    pub closed spec fn spec_phase(&self) -> Phase {
        self.phase
    }

    /// The offer of the created session, once there is one.
    pub closed spec fn spec_offer(&self) -> Option<SessionOffer> {
        self.offer
    }

    pub closed spec fn spec_handle(&self) -> Option<PeerConnectionHandle> {
        self.handle
    }

    pub closed spec fn spec_session(&self) -> Option<StreamSession> {
        self.session
    }

    /// The generated answer, once there is one.
    pub closed spec fn spec_answer(&self) -> Option<SdpDescriptor> {
        self.answer
    }

    pub closed spec fn wf(&self) -> bool {
        &&& self.handle matches Some(h) ==> h.wf()
        &&& self.session matches Some(s) ==> s.state == phase_state(self.phase)
        &&& self.phase == Phase::AwaitingSession ==> self.offer is None && self.handle is None
            && self.session is None
        &&& self.phase != Phase::AwaitingSession && self.phase != Phase::Failed ==> {
            &&& self.offer is Some
            &&& self.handle is Some
            &&& self.session is Some
            &&& self.session->Some_0.remote_id@ == self.offer->Some_0.id@
            &&& self.session->Some_0.correlation_id@ == self.offer->Some_0.correlation_id@
            &&& self.handle->Some_0.spec_identity() == self.offer->Some_0.id@
            &&& self.handle->Some_0.spec_state() == phase_handle_state(self.phase)
        }
        &&& (self.phase == Phase::AwaitingLocalSet || self.phase == Phase::AwaitingAck
            || self.phase == Phase::Done) ==> (self.answer matches Some(a) && a.kind
            == SdpKind::Answer)
    }

    /// Begins a handshake: the first step is to create the remote session.
    pub fn start() -> (r: (Self, Action))
        ensures
            r.0.wf(),
            r.0.spec_phase() == Phase::AwaitingSession,
            r.1 is CreateSession,
    {
        (
            EstablishFlow {
                phase: Phase::AwaitingSession,
                offer: None,
                handle: None,
                session: None,
                answer: None,
            },
            Action::CreateSession,
        )
    }

    pub fn phase(&self) -> (r: Phase)
        ensures
            r == self.spec_phase(),
    {
        self.phase
    }

    /// The handle, once the session's ICE servers are resolved.
    pub fn handle(&self) -> (r: Option<&PeerConnectionHandle>)
        ensures
            r matches Some(h) ==> self.spec_handle() == Some(*h),
            r is None ==> self.spec_handle() is None,
    {
        self.handle.as_ref()
    }

    pub fn session(&self) -> (r: Option<&StreamSession>)
        ensures
            r matches Some(s) ==> self.spec_session() == Some(*s),
            r is None ==> self.spec_session() is None,
    {
        self.session.as_ref()
    }

    fn fail(&mut self, e: EstablishError) -> (a: Action)
        requires
            old(self).handle matches Some(h) ==> h.wf(),
        ensures
            final(self).wf(),
            final(self).spec_phase() == Phase::Failed,
            final(self).spec_offer() == old(self).spec_offer(),
            final(self).spec_handle() == old(self).spec_handle(),
            final(self).spec_session() matches Some(s) ==> s.state == NegotiationState::Failed,
            a == Action::Abort(e),
    {
        self.phase = Phase::Failed;
        match &mut self.session {
            Some(s) => {
                s.state = NegotiationState::Failed;
            },
            None => {},
        }
        Action::Abort(e)
    }
    fn set_session_state(&mut self, st: NegotiationState)
        ensures
            final(self).phase == old(self).phase,
            final(self).offer == old(self).offer,
            final(self).handle == old(self).handle,
            final(self).answer == old(self).answer,
            old(self).session is None ==> final(self).session is None,
            old(self).session matches Some(s0) ==> (final(self).session matches Some(s1)
                && s1.state == st && s1.remote_id == s0.remote_id && s1.correlation_id
                == s0.correlation_id),
    {
        match &mut self.session {
            Some(s) => {
                s.state = st;
            },
            None => {},
        }
    }

    /// Takes the outcome of the operation last requested and decides what
    /// comes next. Each failure ends the handshake at once with the error
    /// of the stage that failed; an outcome that does not answer the last
    /// request ends it with `WrongState`.
    pub fn step(&mut self, event: Event) -> (a: Action)
        requires
            old(self).wf(),
        ensures
            final(self).wf(),
            final(self).spec_session() matches Some(s) ==> s.state == phase_state(
                final(self).spec_phase(),
            ),
            old(self).spec_offer() is Some ==> final(self).spec_offer() == old(self).spec_offer(),
            old(self).spec_phase() == Phase::Done || old(self).spec_phase() == Phase::Failed ==> {
                &&& a == Action::Abort(EstablishError::Negotiation(NegotiationError::WrongState))
                &&& *final(self) == *old(self)
            },
            old(self).spec_phase() == Phase::AwaitingSession ==> match event {
                Event::SessionCreated(Ok(o)) => if spec_normalize_all(o.ice_servers@) is Some {
                    &&& a is BuildPeer
                    &&& final(self).spec_phase() == Phase::AwaitingPeer
                    &&& final(self).spec_offer() == Some(o)
                    &&& final(self).spec_handle() matches Some(h)
                    &&& h.spec_state() == NegotiationState::Created
                    &&& h.spec_identity() == o.id@
                    &&& h.spec_ice_servers() == spec_normalize_all(o.ice_servers@)->Some_0
                    &&& final(self).spec_session() matches Some(s)
                    &&& s.remote_id@ == o.id@
                    &&& s.correlation_id@ == o.correlation_id@
                } else {
                    &&& a == Action::Abort(EstablishError::MalformedIceServer)
                    &&& final(self).spec_phase() == Phase::Failed
                    &&& final(self).spec_handle() is None
                },
                Event::SessionCreated(Err(e)) => {
                    &&& a == Action::Abort(EstablishError::Signaling(e))
                    &&& final(self).spec_phase() == Phase::Failed
                    &&& final(self).spec_handle() is None
                },
                _ => {
                    &&& a == Action::Abort(EstablishError::Negotiation(NegotiationError::WrongState))
                    &&& final(self).spec_phase() == Phase::Failed
                    &&& final(self).spec_handle() is None
                },
            },
            old(self).spec_phase() == Phase::AwaitingPeer ==> match event {
                Event::PeerBuilt(Ok(_)) => {
                    let offer = old(self).spec_offer()->Some_0.offer;
                    if offer.kind == SdpKind::Offer && offer_sdp_valid(offer.body@) {
                        &&& a is SetRemoteOffer
                        &&& final(self).spec_phase() == Phase::AwaitingRemoteSet
                        &&& final(self).spec_handle()->Some_0.spec_state()
                            == NegotiationState::OfferReceived
                    } else {
                        &&& a == Action::Abort(EstablishError::Negotiation(NegotiationError::InvalidOffer))
                        &&& final(self).spec_phase() == Phase::Failed
                    }
                },
                Event::PeerBuilt(Err(m)) => {
                    &&& a == Action::Abort(EstablishError::Engine(m))
                    &&& final(self).spec_phase() == Phase::Failed
                },
                _ => {
                    &&& a == Action::Abort(EstablishError::Negotiation(NegotiationError::WrongState))
                    &&& final(self).spec_phase() == Phase::Failed
                },
            },
            old(self).spec_phase() == Phase::AwaitingRemoteSet ==> match event {
                Event::RemoteOfferSet(Ok(_)) => {
                    &&& a is CreateAnswer
                    &&& final(self).spec_phase() == Phase::AwaitingAnswer
                },
                Event::RemoteOfferSet(Err(_)) => {
                    &&& a == Action::Abort(EstablishError::Negotiation(NegotiationError::InvalidOffer))
                    &&& final(self).spec_phase() == Phase::Failed
                },
                _ => {
                    &&& a == Action::Abort(EstablishError::Negotiation(NegotiationError::WrongState))
                    &&& final(self).spec_phase() == Phase::Failed
                },
            },
            old(self).spec_phase() == Phase::AwaitingAnswer ==> match event {
                Event::AnswerCreated(Ok(sdp)) => if answer_sdp_valid(sdp@) {
                    &&& a is SetLocalAnswer
                    &&& final(self).spec_phase() == Phase::AwaitingLocalSet
                    &&& final(self).spec_answer() matches Some(ans)
                    &&& ans.kind == SdpKind::Answer
                    &&& ans.body@ == sdp@
                } else {
                    &&& a == Action::Abort(EstablishError::Negotiation(NegotiationError::InvalidAnswer))
                    &&& final(self).spec_phase() == Phase::Failed
                },
                Event::AnswerCreated(Err(m)) => {
                    &&& a == Action::Abort(EstablishError::Engine(m))
                    &&& final(self).spec_phase() == Phase::Failed
                },
                _ => {
                    &&& a == Action::Abort(EstablishError::Negotiation(NegotiationError::WrongState))
                    &&& final(self).spec_phase() == Phase::Failed
                },
            },
            old(self).spec_phase() == Phase::AwaitingLocalSet ==> match event {
                Event::LocalAnswerSet(Ok(_)) => {
                    &&& a matches Action::SubmitAnswer { path, body }
                    &&& path@ == spec_sdp_path(old(self).spec_offer()->Some_0.id@)
                    &&& body.session_id@ == old(self).spec_offer()->Some_0.correlation_id@
                    &&& body.answer.kind@ == "answer"@
                    &&& body.answer.sdp@ == old(self).spec_answer()->Some_0.body@
                    &&& final(self).spec_phase() == Phase::AwaitingAck
                },
                Event::LocalAnswerSet(Err(_)) => {
                    &&& a == Action::Abort(EstablishError::Negotiation(NegotiationError::InvalidAnswer))
                    &&& final(self).spec_phase() == Phase::Failed
                },
                _ => {
                    &&& a == Action::Abort(EstablishError::Negotiation(NegotiationError::WrongState))
                    &&& final(self).spec_phase() == Phase::Failed
                },
            },
            old(self).spec_phase() == Phase::AwaitingAck ==> match event {
                Event::AnswerSubmitted(Ok(ack)) => {
                    &&& a == Action::Finished(ack)
                    &&& final(self).spec_phase() == Phase::Done
                },
                Event::AnswerSubmitted(Err(e)) => {
                    &&& a == Action::Abort(EstablishError::Signaling(e))
                    &&& final(self).spec_phase() == Phase::Failed
                },
                _ => {
                    &&& a == Action::Abort(EstablishError::Negotiation(NegotiationError::WrongState))
                    &&& final(self).spec_phase() == Phase::Failed
                },
            },
    {
        if self.phase == Phase::Done || self.phase == Phase::Failed {
            return Action::Abort(EstablishError::Negotiation(NegotiationError::WrongState));
        }
        match event {
            Event::SessionCreated(outcome) => {
                if self.phase != Phase::AwaitingSession {
                    return self.fail(EstablishError::Negotiation(NegotiationError::WrongState));
                }
                match outcome {
                    Err(e) => self.fail(EstablishError::Signaling(e)),
                    Ok(o) => match normalize_all(&o.ice_servers) {
                        Err(_) => self.fail(EstablishError::MalformedIceServer),
                        Ok(entries) => {
                            let handle = PeerConnectionHandle::build(entries, o.id.clone());
                            self.session = Some(
                                StreamSession {
                                    remote_id: o.id.clone(),
                                    correlation_id: o.correlation_id.clone(),
                                    state: NegotiationState::Created,
                                },
                            );
                            self.handle = Some(handle);
                            self.offer = Some(o);
                            self.phase = Phase::AwaitingPeer;
                            Action::BuildPeer
                        },
                    },
                }
            },
            Event::PeerBuilt(outcome) => {
                if self.phase != Phase::AwaitingPeer {
                    return self.fail(EstablishError::Negotiation(NegotiationError::WrongState));
                }
                match outcome {
                    Err(m) => self.fail(EstablishError::Engine(m)),
                    Ok(_) => {
                        let accepted = match &mut self.handle {
                            Some(h) => match &self.offer {
                                Some(o) => h.accept_remote_offer(&o.offer),
                                None => Err(NegotiationError::WrongState),
                            },
                            None => Err(NegotiationError::WrongState),
                        };
                        match accepted {
                            Ok(_) => {
                                self.phase = Phase::AwaitingRemoteSet;
                                self.set_session_state(NegotiationState::OfferReceived);
                                Action::SetRemoteOffer
                            },
                            Err(e) => self.fail(EstablishError::Negotiation(e)),
                        }
                    },
                }
            },
            Event::RemoteOfferSet(outcome) => {
                if self.phase != Phase::AwaitingRemoteSet {
                    return self.fail(EstablishError::Negotiation(NegotiationError::WrongState));
                }
                match outcome {
                    Err(_) => self.fail(EstablishError::Negotiation(NegotiationError::InvalidOffer)),
                    Ok(_) => {
                        self.phase = Phase::AwaitingAnswer;
                        Action::CreateAnswer
                    },
                }
            },
            Event::AnswerCreated(outcome) => {
                if self.phase != Phase::AwaitingAnswer {
                    return self.fail(EstablishError::Negotiation(NegotiationError::WrongState));
                }
                match outcome {
                    Err(m) => self.fail(EstablishError::Engine(m)),
                    Ok(sdp) => {
                        let generated = match &mut self.handle {
                            Some(h) => h.generate_answer(sdp),
                            None => Err(NegotiationError::WrongState),
                        };
                        match generated {
                            Ok(ans) => {
                                self.answer = Some(ans);
                                self.phase = Phase::AwaitingLocalSet;
                                self.set_session_state(NegotiationState::AnswerGenerated);
                                Action::SetLocalAnswer
                            },
                            Err(e) => self.fail(EstablishError::Negotiation(e)),
                        }
                    },
                }
            },
            Event::LocalAnswerSet(outcome) => {
                if self.phase != Phase::AwaitingLocalSet {
                    return self.fail(EstablishError::Negotiation(NegotiationError::WrongState));
                }
                match outcome {
                    Err(_) => self.fail(EstablishError::Negotiation(NegotiationError::InvalidAnswer)),
                    Ok(_) => {
                        let submit = match (&self.offer, &self.answer) {
                            (Some(o), Some(ans)) => Some(
                                Action::SubmitAnswer {
                                    path: sdp_path(o.id.as_str()),
                                    body: StartStreamRequestBody::new(
                                        ans.body.clone(),
                                        o.correlation_id.clone(),
                                    ),
                                },
                            ),
                            _ => None,
                        };
                        match submit {
                            Some(act) => {
                                self.phase = Phase::AwaitingAck;
                                self.set_session_state(NegotiationState::AnswerSent);
                                act
                            },
                            None => self.fail(EstablishError::Negotiation(NegotiationError::WrongState)),
                        }
                    },
                }
            },
            Event::AnswerSubmitted(outcome) => {
                if self.phase != Phase::AwaitingAck {
                    return self.fail(EstablishError::Negotiation(NegotiationError::WrongState));
                }
                match outcome {
                    Err(e) => self.fail(EstablishError::Signaling(e)),
                    Ok(ack) => {
                        self.phase = Phase::Done;
                        self.set_session_state(NegotiationState::Established);
                        Action::Finished(ack)
                    },
                }
            },
        }
    }
}

} // verus!
