//! The signaling exchange's values: what session creation returns, what the
//! answer submission sends, and how a reply of the signaling server is read.
use vstd::prelude::*;
use crate::error::RequestBodyBuildError;
use crate::ice::IceServerDescriptor;
use crate::video::{string_or_empty, text_or_empty};
use crate::sdp::SdpDescriptor;

verus! {

#[verifier::external_type_specification]
#[verifier::external_body]
pub struct ExJsonValue(serde_json::Value);

/// The path under which sessions are created.
pub const STREAMS_PATH: &'static str = "/streams";

/// The suffix of a session's path to which the answer is submitted.
pub const SDP_PATH: &'static str = "/sdp";

/// What session creation hands back: the session's identifier, the distinct
/// correlation token that must accompany the answer, the remote offer and the
/// ICE servers to use.
#[derive(Clone, Debug)]
pub struct SessionOffer {
    pub id: String,
    pub correlation_id: String,
    pub offer: SdpDescriptor,
    pub ice_servers: Vec<IceServerDescriptor>,
}

/// A structured error returned by the signaling server.
#[derive(Clone, Debug)]
pub struct ServerRejection {
    pub status: u16,
    pub kind: String,
    pub description: String,
    pub details: Option<serde_json::Value>,
}

/// The error body of a rejected request, as decoded from the wire.
#[derive(Clone, Debug)]
pub struct RejectionBody {
    pub kind: String,
    pub description: String,
    pub details: Option<serde_json::Value>,
}

/// A failed signaling call.
#[derive(Clone, Debug)]
pub enum SignalingError {
    /// The signaling endpoint could not be reached.
    Transport(String),
    /// The reply does not have the expected shape.
    Malformed(String),
    /// The server refused the request with a structured error.
    Rejected(ServerRejection),
}

/// Whether an HTTP status reports success.
pub open spec fn is_success(status: u16) -> bool {
    200 <= status <= 299
}

/// Reads a reply of the signaling server from its status, its body decoded
/// as the expected value (if it could be) and its body decoded as an error
/// (if it could be). A success status needs the expected value; any other
/// status needs a structured error.
pub fn read_reply<T>(status: u16, value: Option<T>, rejection: Option<RejectionBody>) -> (r: Result<
    T,
    SignalingError,
>)
    ensures
        is_success(status) && value is Some ==> r == Ok::<T, SignalingError>(value->Some_0),
        is_success(status) && value is None ==> r matches Err(SignalingError::Malformed(_)),
        !is_success(status) && rejection is None ==> r matches Err(SignalingError::Malformed(_)),
        !is_success(status) && rejection is Some ==> (r matches Err(SignalingError::Rejected(rej))
            && rej.status == status && rej.kind@ == rejection->Some_0.kind@ && rej.description@
            == rejection->Some_0.description@ && rej.details == rejection->Some_0.details),
{
    if 200 <= status && status <= 299 {
        match value {
            Some(v) => Ok(v),
            None => Err(SignalingError::Malformed("reply does not match the expected shape".to_string())),
        }
    } else {
        match rejection {
            Some(body) => Err(
                SignalingError::Rejected(
                    ServerRejection {
                        status,
                        kind: body.kind,
                        description: body.description,
                        details: body.details,
                    },
                ),
            ),
            None => Err(SignalingError::Malformed("error reply is not a structured error".to_string())),
        }
    }
}

/// The body of a session creation. `F` is the face and `C` the stream
/// configuration sent with it; the body only carries them. An empty driver
/// URL stands for none.
#[derive(Clone, Debug)]
pub struct NewStreamRequestBody<F, C> {
    pub source_url: String,
    pub driver_url: String,
    pub face: Option<F>,
    pub config: Option<C>,
}

/// Collects the fields of a session creation; the source URL is required.
#[derive(Clone, Debug)]
pub struct NewStreamRequestBodyBuilder<F, C> {
    pub source_url: Option<String>,
    pub driver_url: Option<String>,
    pub face: Option<F>,
    pub config: Option<C>,
}

impl<F, C> NewStreamRequestBodyBuilder<F, C> {
    pub fn new() -> (r: Self)
        ensures
            r == (Self { source_url: None, driver_url: None, face: None, config: None }),
    {
        NewStreamRequestBodyBuilder { source_url: None, driver_url: None, face: None, config: None }
    }

    pub fn source_url(self, source_url: &str) -> (r: Self)
        ensures
            r == (Self { source_url: r.source_url, ..self }),
            r.source_url matches Some(u) && u@ == source_url@,
    {
        Self { source_url: Some(source_url.to_string()), ..self }
    }

    pub fn driver_url(self, driver_url: &str) -> (r: Self)
        ensures
            r == (Self { driver_url: r.driver_url, ..self }),
            r.driver_url matches Some(u) && u@ == driver_url@,
    {
        Self { driver_url: Some(driver_url.to_string()), ..self }
    }

    pub fn face(self, face: F) -> (r: Self)
        ensures
            r == (Self { face: Some(face), ..self }),
    {
        Self { face: Some(face), ..self }
    }

    pub fn config(self, config: C) -> (r: Self)
        ensures
            r == (Self { config: Some(config), ..self }),
    {
        Self { config: Some(config), ..self }
    }

    /// The body: fails without a source URL; an unset driver URL becomes
    /// empty.
    pub fn build(self) -> (r: Result<NewStreamRequestBody<F, C>, RequestBodyBuildError>)
        ensures
            self.source_url is None ==> r == Err::<NewStreamRequestBody<F, C>, RequestBodyBuildError>(
                RequestBodyBuildError::SourceUrlNotSet,
            ),
            self.source_url is Some ==> r is Ok && {
                let b = r->Ok_0;
                &&& b.source_url == self.source_url->Some_0
                &&& b.driver_url@ == text_or_empty(self.driver_url)
                &&& b.face == self.face
                &&& b.config == self.config
            },
    {
        let source_url = match self.source_url {
            Some(u) => u,
            None => {
                return Err(RequestBodyBuildError::SourceUrlNotSet);
            },
        };
        Ok(
            NewStreamRequestBody {
                source_url,
                driver_url: string_or_empty(self.driver_url),
                face: self.face,
                config: self.config,
            },
        )
    }
}

/// The answer part of an answer submission.
#[derive(Clone, Debug)]
pub struct Answer {
    pub kind: String,
    pub sdp: String,
}

/// The body of an answer submission: the answer and the session's
/// correlation token.
#[derive(Clone, Debug)]
pub struct StartStreamRequestBody {
    pub answer: Answer,
    pub session_id: String,
}

impl StartStreamRequestBody {
    pub fn new(sdp: String, session_id: String) -> (r: Self)
        ensures
            r.answer.kind@ == "answer"@,
            r.answer.sdp@ == sdp@,
            r.session_id@ == session_id@,
    {
        StartStreamRequestBody {
            answer: Answer { kind: "answer".to_string(), sdp },
            session_id,
        }
    }
}

/// The path to which a session's answer is submitted.
pub open spec fn spec_sdp_path(id: Seq<char>) -> Seq<char> {
    STREAMS_PATH@ + "/"@ + id + SDP_PATH@
}

pub fn sdp_path(id: &str) -> (r: String)
    ensures
        r@ == spec_sdp_path(id@),
{
    let mut p = STREAMS_PATH.to_string();
    p.append("/");
    p.append(id);
    p.append(SDP_PATH);
    p
}

} // verus!
