//! The local peer connection's negotiation: construction, acceptance of the
//! remote offer and generation of the local answer.
use vstd::prelude::*;
use crate::ice::{IceEntry, IceEntryModel};
use crate::sdp::{SdpDescriptor, SdpKind};
use webrtc::peer_connection::RTCSessionDescription;

verus! {

#[verifier::external_type_specification]
#[verifier::external_body]
pub struct ExSessionDescription(RTCSessionDescription);

#[verifier::external_type_specification]
#[verifier::external_body]
pub struct ExRtcError(webrtc::error::Error);

/// Whether the text is accepted by the engine as the SDP of an offer.
pub uninterp spec fn offer_sdp_valid(sdp: Seq<char>) -> bool;

/// Whether the text is accepted by the engine as the SDP of an answer.
pub uninterp spec fn answer_sdp_valid(sdp: Seq<char>) -> bool;

/// Relies on `RTCSessionDescription::offer`: it parses the SDP text at once
/// and fails exactly when the text does not parse.
#[verifier::external_body]
fn parse_offer(sdp: String) -> (r: Result<RTCSessionDescription, webrtc::error::Error>)
    ensures
        r is Ok <==> offer_sdp_valid(sdp@),
{
    RTCSessionDescription::offer(sdp)
}

/// Relies on `RTCSessionDescription::answer`: it parses the SDP text at once
/// and fails exactly when the text does not parse.
#[verifier::external_body]
fn parse_answer(sdp: String) -> (r: Result<RTCSessionDescription, webrtc::error::Error>)
    ensures
        r is Ok <==> answer_sdp_valid(sdp@),
{
    RTCSessionDescription::answer(sdp)
}

/// Progress of a negotiation. It only moves forward; `Failed` is terminal.
#[derive(Clone, Copy, Debug, PartialEq, Eq, Structural)]
pub enum NegotiationState {
    Created,
    OfferReceived,
    AnswerGenerated,
    AnswerSent,
    Established,
    Failed,
}

/// A violation of the offer/answer protocol inside the peer connection.
#[derive(Clone, Copy, Debug, PartialEq, Eq, Structural)]
pub enum NegotiationError {
    InvalidOffer,
    InvalidAnswer,
    WrongState,
}

/// The state after an offer is presented to a handle in state `s`, and the
/// outcome: only `Created` accepts, and only an offer whose SDP parses.
pub open spec fn accept_outcome(s: NegotiationState, kind: SdpKind, valid: bool) -> (
    NegotiationState,
    Result<(), NegotiationError>,
) {
    if s != NegotiationState::Created {
        (s, Err(NegotiationError::WrongState))
    } else if kind == SdpKind::Offer && valid {
        (NegotiationState::OfferReceived, Ok(()))
    } else {
        (NegotiationState::Failed, Err(NegotiationError::InvalidOffer))
    }
}

/// The state after an answer is generated by a handle in state `s`, and the
/// error if it fails: only a handle whose offer was accepted generates one.
pub open spec fn answer_outcome(s: NegotiationState, valid: bool) -> (
    NegotiationState,
    Option<NegotiationError>,
) {
    if s != NegotiationState::OfferReceived {
        (s, Some(NegotiationError::WrongState))
    } else if valid {
        (NegotiationState::AnswerGenerated, None)
    } else {
        (NegotiationState::Failed, Some(NegotiationError::InvalidAnswer))
    }
}

/// The position of a state in the order in which a negotiation moves.
pub open spec fn state_rank(s: NegotiationState) -> nat {
    match s {
        NegotiationState::Created => 0,
        NegotiationState::OfferReceived => 1,
        NegotiationState::AnswerGenerated => 2,
        NegotiationState::AnswerSent => 3,
        NegotiationState::Established => 4,
        NegotiationState::Failed => 5,
    }
}

/// A handle's state never moves back: accepting an offer and generating an
/// answer leave it where it was or move it forward.
pub proof fn law_states_move_forward(s: NegotiationState, kind: SdpKind, valid: bool)
    ensures
        state_rank(accept_outcome(s, kind, valid).0) >= state_rank(s),
        state_rank(answer_outcome(s, valid).0) >= state_rank(s),
{
}

/// The state after offers are presented in turn, each given by its kind and
/// whether its SDP parses.
pub open spec fn after_offers(s: NegotiationState, offers: Seq<(SdpKind, bool)>) -> NegotiationState
    decreases offers.len(),
{
    if offers.len() == 0 {
        s
    } else {
        after_offers(
            accept_outcome(s, offers[0].0, offers[0].1).0,
            offers.drop_first(),
        )
    }
}

/// Whether any of the offers presented in turn was accepted.
pub open spec fn some_offer_accepted(s: NegotiationState, offers: Seq<(SdpKind, bool)>) -> bool
    decreases offers.len(),
{
    if offers.len() == 0 {
        false
    } else {
        accept_outcome(s, offers[0].0, offers[0].1).1 is Ok || some_offer_accepted(
            accept_outcome(s, offers[0].0, offers[0].1).0,
            offers.drop_first(),
        )
    }
}

/// An offer is accepted only by a handle in state `Created`; and a freshly
/// built handle to which no offer was successfully presented, whatever was
/// presented to it, refuses to generate an answer with `WrongState`.
pub proof fn law_answer_follows_accepted_offer(
    s: NegotiationState,
    kind: SdpKind,
    valid: bool,
    offers: Seq<(SdpKind, bool)>,
    answer_valid: bool,
)
    ensures
        s != NegotiationState::Created ==> accept_outcome(s, kind, valid).1 == Err::<
            (),
            NegotiationError,
        >(NegotiationError::WrongState),
        !some_offer_accepted(NegotiationState::Created, offers) ==> answer_outcome(
            after_offers(NegotiationState::Created, offers),
            answer_valid,
        ).1 == Some(NegotiationError::WrongState),
{
    lemma_unaccepted_never_offer_received(NegotiationState::Created, offers);
}

proof fn lemma_unaccepted_never_offer_received(s: NegotiationState, offers: Seq<(SdpKind, bool)>)
    requires
        s != NegotiationState::OfferReceived,
    ensures
        !some_offer_accepted(s, offers) ==> after_offers(s, offers)
            != NegotiationState::OfferReceived,
    decreases offers.len(),
{
    if offers.len() > 0 {
        let next = accept_outcome(s, offers[0].0, offers[0].1);
        if next.1 is Err {
            lemma_unaccepted_never_offer_received(next.0, offers.drop_first());
        }
    }
}

/// The local peer connection of one session, with its negotiation state.
pub struct PeerConnectionHandle {
    identity: String,
    ice_servers: Vec<IceEntry>,
    state: NegotiationState,
    remote_offer: Option<RTCSessionDescription>,
    local_answer: Option<RTCSessionDescription>,
}

impl PeerConnectionHandle {
    pub closed spec fn spec_state(&self) -> NegotiationState {
        self.state
    }

    pub closed spec fn spec_identity(&self) -> Seq<char> {
        self.identity@
    }

    pub closed spec fn spec_ice_servers(&self) -> Seq<IceEntryModel> {
        self.ice_servers@.map_values(|e: IceEntry| e@)
    }

    /// Whether the accepted remote offer is held, exactly from the offer's
    /// acceptance on.
    pub closed spec fn spec_has_remote_offer(&self) -> bool {
        self.remote_offer is Some
    }

    /// Whether the generated local answer is held.
    pub closed spec fn spec_has_local_answer(&self) -> bool {
        self.local_answer is Some
    }

    /// The state determines which descriptions the handle holds.
    pub closed spec fn wf(&self) -> bool {
        &&& (self.remote_offer is Some) <==> (self.state == NegotiationState::OfferReceived
            || self.state == NegotiationState::AnswerGenerated)
        &&& (self.local_answer is Some) <==> self.state == NegotiationState::AnswerGenerated
    }

    /// Allocates a handle configured with the resolved ICE endpoints and
    /// tagged with the session's identity.
    pub fn build(ice_servers: Vec<IceEntry>, peer_identity: String) -> (h: Self)
        ensures
            h.wf(),
            h.spec_state() == NegotiationState::Created,
            h.spec_identity() == peer_identity@,
            h.spec_ice_servers() == ice_servers@.map_values(|e: IceEntry| e@),
    {
        PeerConnectionHandle {
            identity: peer_identity,
            ice_servers,
            state: NegotiationState::Created,
            remote_offer: None,
            local_answer: None,
        }
    }

    pub fn state(&self) -> (r: NegotiationState)
        ensures
            r == self.spec_state(),
    {
        self.state
    }

    pub fn identity(&self) -> (r: &String)
        ensures
            r@ == self.spec_identity(),
    {
        &self.identity
    }

    pub fn ice_servers(&self) -> (r: &Vec<IceEntry>)
        ensures
            r@.map_values(|e: IceEntry| e@) == self.spec_ice_servers(),
    {
        &self.ice_servers
    }

    /// The accepted remote offer, for the engine to apply.
    pub fn remote_offer(&self) -> (r: Option<&RTCSessionDescription>)
        ensures
            r is Some <==> self.spec_has_remote_offer(),
    {
        self.remote_offer.as_ref()
    }

    /// The generated local answer, for the engine to apply.
    pub fn local_answer(&self) -> (r: Option<&RTCSessionDescription>)
        ensures
            r is Some <==> self.spec_has_local_answer(),
    {
        self.local_answer.as_ref()
    }

    /// Accepts the remote offer. Only a handle in state `Created` accepts
    /// one; the description must be an offer whose SDP parses. A rejected
    /// offer fails the handle.
    pub fn accept_remote_offer(&mut self, offer: &SdpDescriptor) -> (r: Result<(), NegotiationError>)
        requires
            old(self).wf(),
        ensures
            final(self).wf(),
            final(self).spec_identity() == old(self).spec_identity(),
            final(self).spec_ice_servers() == old(self).spec_ice_servers(),
            (final(self).spec_state(), r) == accept_outcome(
                old(self).spec_state(),
                offer.kind,
                offer_sdp_valid(offer.body@),
            ),
            old(self).spec_state() != NegotiationState::Created ==> r == Err::<
                (),
                NegotiationError,
            >(NegotiationError::WrongState) && *final(self) == *old(self),
    {
        if self.state != NegotiationState::Created {
            return Err(NegotiationError::WrongState);
        }
        if offer.kind != SdpKind::Offer {
            self.state = NegotiationState::Failed;
            return Err(NegotiationError::InvalidOffer);
        }
        match parse_offer(offer.body.clone()) {
            Ok(desc) => {
                self.remote_offer = Some(desc);
                self.state = NegotiationState::OfferReceived;
                Ok(())
            },
            Err(_) => {
                self.state = NegotiationState::Failed;
                Err(NegotiationError::InvalidOffer)
            },
        }
    }

    /// Records the answer the engine created for the accepted offer and
    /// returns it for transmission. Only a handle whose offer was just
    /// accepted generates an answer; SDP that does not parse fails the
    /// handle.
    pub fn generate_answer(&mut self, answer_sdp: String) -> (r: Result<SdpDescriptor, NegotiationError>)
        requires
            old(self).wf(),
        ensures
            final(self).wf(),
            final(self).spec_identity() == old(self).spec_identity(),
            final(self).spec_ice_servers() == old(self).spec_ice_servers(),
            final(self).spec_state() == answer_outcome(
                old(self).spec_state(),
                answer_sdp_valid(answer_sdp@),
            ).0,
            match answer_outcome(old(self).spec_state(), answer_sdp_valid(answer_sdp@)).1 {
                Some(e) => r == Err::<SdpDescriptor, NegotiationError>(e),
                None => r is Ok && r->Ok_0.kind == SdpKind::Answer && r->Ok_0.body@ == answer_sdp@,
            },
            old(self).spec_state() != NegotiationState::OfferReceived ==> *final(self) == *old(self),
    {
        if self.state != NegotiationState::OfferReceived {
            return Err(NegotiationError::WrongState);
        }
        match parse_answer(answer_sdp.clone()) {
            Ok(desc) => {
                self.local_answer = Some(desc);
                self.state = NegotiationState::AnswerGenerated;
                Ok(SdpDescriptor { kind: SdpKind::Answer, body: answer_sdp })
            },
            Err(_) => {
                self.remote_offer = None;
                self.state = NegotiationState::Failed;
                Err(NegotiationError::InvalidAnswer)
            },
        }
    }
}

} // verus!
