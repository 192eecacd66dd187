//! Negotiation of live streaming sessions with a remote video-generation
//! service: ICE server normalization, the peer-connection negotiation state
//! machine, and the sequencing of the signaling handshake; with the request
//! builders and reply values of the service's other endpoints.
pub mod animations;
pub mod clips;
pub mod error;
pub mod establish;
pub mod ice;
pub mod multipart;
pub mod peer;
pub mod resources;
pub mod sdp;
pub mod signaling;
pub mod talks;
pub mod video;
