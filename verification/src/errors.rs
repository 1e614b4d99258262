//! Errors of a link and of the transport below it.

use vstd::prelude::*;

verus! {

/// Why a link is detached.
#[derive(Clone, Copy, Debug, PartialEq, Eq, Structural)]
pub enum LinkErrorKind {
    /// The link is detached by force, after a violation of the protocol.
    DetachForced,
    /// The peer sent a transfer for which it held no credit.
    TransferLimitExceeded,
}

/// The error that a detach carries: its kind, and a text for the peer.
#[derive(Debug)]
pub struct LinkError {
    kind: LinkErrorKind,
    description: Option<String>,
}

/// A [`LinkError`] as a plain value.
pub struct LinkErrorView {
    /// Why the link is detached.
    pub kind: LinkErrorKind,
    /// The text for the peer, if there is one.
    pub description: Option<Seq<char>>,
}

impl View for LinkError {
    type V = LinkErrorView;

    closed spec fn view(&self) -> LinkErrorView {
        LinkErrorView {
            kind: self.kind,
            description: match self.description {
                Some(text) => Some(text@),
                None => None,
            },
        }
    }
}

impl LinkError {
    /// A forced detach, without a description.
    pub fn force_detach() -> (err: Self)
        ensures
            err@ == (LinkErrorView { kind: LinkErrorKind::DetachForced, description: None }),
    {
        LinkError { kind: LinkErrorKind::DetachForced, description: None }
    }

    /// The peer exceeded its credit, without a description.
    pub fn transfer_limit_exceeded() -> (err: Self)
        ensures
            err@ == (LinkErrorView {
                kind: LinkErrorKind::TransferLimitExceeded,
                description: None,
            }),
    {
        LinkError { kind: LinkErrorKind::TransferLimitExceeded, description: None }
    }

    /// The same error with `text` as its description.
    pub fn description(self, text: &str) -> (err: Self)
        ensures
            err@ == (LinkErrorView { kind: self@.kind, description: Some(text@) }),
    {
        LinkError { kind: self.kind, description: Some(text.to_owned()) }
    }

    /// Why the link is detached.
    pub fn kind(&self) -> (kind: LinkErrorKind)
        ensures
            kind == self@.kind,
    {
        self.kind
    }

    /// The text for the peer, if there is one.
    pub fn text(&self) -> (text: Option<&str>)
        ensures
            match text {
                Some(t) => self@.description == Some(t@),
                None => self@.description is None,
            },
    {
        match &self.description {
            Some(text) => Some(text.as_str()),
            None => None,
        }
    }
}

/// Failure of the session or of the transport below a link. It ends the
/// sequence of frames of every link that it reaches.
#[derive(Clone, Copy, Debug, PartialEq, Eq, Structural)]
pub enum AmqpTransportError {
    /// The connection is gone.
    Disconnected,
    /// The peer did not answer in time.
    Timeout,
    /// The session that carried the link has ended.
    SessionEnded,
}

} // verus!
