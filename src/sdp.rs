//! Session descriptions as exchanged during negotiation.
use vstd::prelude::*;

verus! {

/// Whether a session description offers a session or answers an offer.
#[derive(Clone, Copy, Debug, PartialEq, Eq, Structural)]
pub enum SdpKind {
    Offer,
    Answer,
}

/// A session description: its kind and its opaque SDP text.
#[derive(Clone, Debug)]
pub struct SdpDescriptor {
    pub kind: SdpKind,
    pub body: String,
}

} // verus!
