use d_id_stream::establish::{Action, EstablishError, EstablishFlow, Event, Phase};
use d_id_stream::ice::{IceServerDescriptor, IceUrls};
use d_id_stream::peer::{NegotiationError, NegotiationState};
use d_id_stream::sdp::{SdpDescriptor, SdpKind};
use d_id_stream::signaling::{read_reply, RejectionBody, SessionOffer, SignalingError};

const VALID_SDP: &str = "v=0\r\no=- 4215775240449105457 2 IN IP4 127.0.0.1\r\ns=-\r\nt=0 0\r\n";
const ANSWER_SDP: &str = "v=0\r\no=- 77 2 IN IP4 127.0.0.1\r\ns=-\r\nt=0 0\r\n";

fn session_offer(ice_servers: Vec<IceServerDescriptor>) -> SessionOffer {
    SessionOffer {
        id: "str1".to_string(),
        correlation_id: "sess1".to_string(),
        offer: SdpDescriptor { kind: SdpKind::Offer, body: VALID_SDP.to_string() },
        ice_servers,
    }
}

fn google_stun() -> IceServerDescriptor {
    IceServerDescriptor {
        urls: IceUrls::Stun("stun:stun.l.google.com:19302".to_string()),
        username: None,
        credential: None,
    }
}

#[test]
fn full_handshake_submits_answer_with_correlation_id() {
    let (mut flow, first) = EstablishFlow::start();
    assert!(matches!(first, Action::CreateSession));

    let a = flow.step(Event::SessionCreated(Ok(session_offer(vec![google_stun()]))));
    assert!(matches!(a, Action::BuildPeer));
    let h = flow.handle().unwrap();
    assert_eq!(h.ice_servers().len(), 1);
    assert_eq!(h.ice_servers()[0].url, "stun:stun.l.google.com:19302");
    assert_eq!(h.identity(), "str1");
    let s = flow.session().unwrap();
    assert_eq!(s.remote_id, "str1");
    assert_eq!(s.correlation_id, "sess1");
    assert_eq!(s.state, NegotiationState::Created);

    let a = flow.step(Event::PeerBuilt(Ok(())));
    assert!(matches!(a, Action::SetRemoteOffer));
    assert!(flow.handle().unwrap().remote_offer().is_some());
    assert_eq!(flow.session().unwrap().state, NegotiationState::OfferReceived);

    let a = flow.step(Event::RemoteOfferSet(Ok(())));
    assert!(matches!(a, Action::CreateAnswer));

    let a = flow.step(Event::AnswerCreated(Ok(ANSWER_SDP.to_string())));
    assert!(matches!(a, Action::SetLocalAnswer));
    assert_eq!(flow.session().unwrap().state, NegotiationState::AnswerGenerated);

    match flow.step(Event::LocalAnswerSet(Ok(()))) {
        Action::SubmitAnswer { path, body } => {
            assert_eq!(path, "/streams/str1/sdp");
            assert_eq!(body.session_id, "sess1");
            assert_eq!(body.answer.kind, "answer");
            assert_eq!(body.answer.sdp, ANSWER_SDP);
        }
        _ => panic!("expected the answer to be submitted"),
    }
    assert_eq!(flow.session().unwrap().state, NegotiationState::AnswerSent);

    let ack = serde_json::Value::String("ok".to_string());
    match flow.step(Event::AnswerSubmitted(Ok(ack))) {
        Action::Finished(v) => assert_eq!(v, serde_json::Value::String("ok".to_string())),
        _ => panic!("expected the handshake to finish"),
    }
    assert_eq!(flow.phase(), Phase::Done);
    assert_eq!(flow.session().unwrap().state, NegotiationState::Established);
}

#[test]
fn malformed_ice_server_aborts_before_building() {
    let (mut flow, _) = EstablishFlow::start();
    let empty_turn = IceServerDescriptor { urls: IceUrls::Turn(vec![]), username: None, credential: None };
    let a = flow.step(Event::SessionCreated(Ok(session_offer(vec![google_stun(), empty_turn]))));
    assert!(matches!(a, Action::Abort(EstablishError::MalformedIceServer)));
    assert!(flow.handle().is_none());
    assert_eq!(flow.phase(), Phase::Failed);
}

#[test]
fn rejected_session_creation_aborts_with_server_rejection() {
    let rejection = RejectionBody {
        kind: "InsufficientCredits".to_string(),
        description: "not enough credits".to_string(),
        details: None,
    };
    let reply = read_reply::<SessionOffer>(402, None, Some(rejection));
    let (mut flow, _) = EstablishFlow::start();
    match flow.step(Event::SessionCreated(reply)) {
        Action::Abort(EstablishError::Signaling(SignalingError::Rejected(r))) => {
            assert_eq!(r.status, 402);
            assert_eq!(r.kind, "InsufficientCredits");
            assert_eq!(r.description, "not enough credits");
            assert!(r.details.is_none());
        }
        _ => panic!("expected a server rejection"),
    }
    assert!(flow.handle().is_none());
    assert_eq!(flow.phase(), Phase::Failed);
}

#[test]
fn invalid_remote_offer_aborts_negotiation() {
    let (mut flow, _) = EstablishFlow::start();
    let mut o = session_offer(vec![google_stun()]);
    o.offer.body = "v=0...".to_string();
    flow.step(Event::SessionCreated(Ok(o)));
    let a = flow.step(Event::PeerBuilt(Ok(())));
    assert!(matches!(a, Action::Abort(EstablishError::Negotiation(NegotiationError::InvalidOffer))));
    assert_eq!(flow.session().unwrap().state, NegotiationState::Failed);
}

#[test]
fn engine_failure_aborts_with_its_message() {
    let (mut flow, _) = EstablishFlow::start();
    flow.step(Event::SessionCreated(Ok(session_offer(vec![google_stun()]))));
    match flow.step(Event::PeerBuilt(Err("no engine".to_string()))) {
        Action::Abort(EstablishError::Engine(m)) => assert_eq!(m, "no engine"),
        _ => panic!("expected an engine failure"),
    }
}

#[test]
fn out_of_order_outcome_is_wrong_state() {
    let (mut flow, _) = EstablishFlow::start();
    let a = flow.step(Event::AnswerCreated(Ok(ANSWER_SDP.to_string())));
    assert!(matches!(a, Action::Abort(EstablishError::Negotiation(NegotiationError::WrongState))));
    assert_eq!(flow.phase(), Phase::Failed);
    let again = flow.step(Event::SessionCreated(Ok(session_offer(vec![google_stun()]))));
    assert!(matches!(again, Action::Abort(EstablishError::Negotiation(NegotiationError::WrongState))));
    assert!(flow.handle().is_none());
}

#[test]
fn failed_answer_submission_surfaces_signaling_error() {
    let (mut flow, _) = EstablishFlow::start();
    flow.step(Event::SessionCreated(Ok(session_offer(vec![google_stun()]))));
    flow.step(Event::PeerBuilt(Ok(())));
    flow.step(Event::RemoteOfferSet(Ok(())));
    flow.step(Event::AnswerCreated(Ok(ANSWER_SDP.to_string())));
    flow.step(Event::LocalAnswerSet(Ok(())));
    let a = flow.step(Event::AnswerSubmitted(Err(SignalingError::Transport("timeout".to_string()))));
    assert!(matches!(a, Action::Abort(EstablishError::Signaling(SignalingError::Transport(_)))));
    assert_eq!(flow.session().unwrap().state, NegotiationState::Failed);
}
