//! The session's record of one receiver link, and the handle through which
//! the link, its frames and the session share it.

use crate::cell::{created, released, retained, written, Cell, CellStore};
use crate::errors::{AmqpTransportError, LinkError, LinkErrorKind, LinkErrorView};
use crate::frames::Delivery;
use amqp_codec::protocol::Attach;
use futures::Async;
use std::collections::VecDeque;
use vstd::prelude::*;

verus! {

/// What becomes of a transfer that arrives while the credit does not cover
/// it.
#[derive(Clone, Copy, Debug, PartialEq, Eq, Structural)]
pub enum ExcessPolicy {
    /// The transfer is dropped and the link is detached with
    /// `TransferLimitExceeded`.
    Reject,
    /// The transfer is queued like any other.
    Accept,
}

/// The error with which a link is detached when a transfer arrives that the
/// credit does not cover.
pub open spec fn limit_exceeded() -> LinkErrorView {
    LinkErrorView { kind: LinkErrorKind::TransferLimitExceeded, description: None }
}

/// What the session keeps for one receiver link.
#[derive(Debug)]
pub struct ReceiverLinkInner {
    attach: Attach,
    policy: ExcessPolicy,
    opened: bool,
    closed: bool,
    error: Option<LinkError>,
    failure: Option<AmqpTransportError>,
    credit: u32,
    queue: VecDeque<Delivery>,
}

/// A [`ReceiverLinkInner`] as a plain value.
pub struct LinkState {
    /// The attach frame that the peer sent for this link.
    pub attach: Attach,
    /// What becomes of a transfer that the credit does not cover.
    pub policy: ExcessPolicy,
    /// Whether the link was opened at the protocol level.
    pub opened: bool,
    /// Whether the link is detached; no transfer is accepted any more.
    pub closed: bool,
    /// The error that the link was detached with, if any.
    pub error: Option<LinkErrorView>,
    /// The failure of the session or transport, if there was one.
    pub failure: Option<AmqpTransportError>,
    /// The credit that was granted and that no pulled transfer has used up.
    pub credit: u32,
    /// The transfers that arrived and were not pulled yet, oldest first.
    pub queue: Seq<Delivery>,
}

impl View for ReceiverLinkInner {
    type V = LinkState;

    closed spec fn view(&self) -> LinkState {
        LinkState {
            attach: self.attach,
            policy: self.policy,
            opened: self.opened,
            closed: self.closed,
            error: match self.error {
                Some(err) => Some(err@),
                None => None,
            },
            failure: self.failure,
            credit: self.credit,
            queue: self.queue@,
        }
    }
}

impl LinkState {
    /// The record of a link that was just attached: not open, no credit,
    /// nothing queued.
    pub open spec fn attached(attach: Attach, policy: ExcessPolicy) -> LinkState {
        LinkState {
            attach,
            policy,
            opened: false,
            closed: false,
            error: None,
            failure: None,
            credit: 0,
            queue: Seq::empty(),
        }
    }

    /// After the link was opened at the protocol level.
    pub open spec fn confirmed(self) -> LinkState {
        LinkState { opened: true, ..self }
    }

    /// After `credit` more units were granted to the peer.
    pub open spec fn granted(self, credit: u32) -> LinkState {
        LinkState { credit: (self.credit + credit) as u32, ..self }
    }

    /// After a detach with `err`. Only the first detach counts: a link that
    /// is closed stays as it is.
    pub open spec fn detached(self, err: Option<LinkErrorView>) -> LinkState {
        if self.closed {
            self
        } else {
            LinkState { closed: true, error: err, ..self }
        }
    }

    /// After the session or the transport failed with `failure`. The first
    /// failure stays.
    pub open spec fn failed(self, failure: AmqpTransportError) -> LinkState {
        if self.failure is Some {
            self
        } else {
            LinkState { failure: Some(failure), ..self }
        }
    }

    /// Whether the credit covers one more transfer besides those queued.
    pub open spec fn covers_one_more(self) -> bool {
        self.queue.len() < self.credit
    }

    /// After `delivery` arrived from the peer. A closed link drops it. Where
    /// the credit covers it, it is queued. Where it does not, the policy
    /// decides.
    pub open spec fn received(self, delivery: Delivery) -> LinkState {
        if self.closed {
            self
        } else if self.covers_one_more() {
            LinkState { queue: self.queue.push(delivery), ..self }
        } else if self.policy == ExcessPolicy::Accept {
            LinkState { queue: self.queue.push(delivery), ..self }
        } else {
            self.detached(Some(limit_exceeded()))
        }
    }

    /// What a pull finds: the oldest queued transfer; else the failure; else
    /// the end of the sequence on a closed link; else nothing yet.
    pub open spec fn next(self) -> Result<Async<Option<Delivery>>, AmqpTransportError> {
        if self.queue.len() > 0 {
            Ok(Async::Ready(Some(self.queue[0])))
        } else if self.failure is Some {
            Err(self.failure->0)
        } else if self.closed {
            Ok(Async::Ready(None))
        } else {
            Ok(Async::NotReady)
        }
    }

    /// After a pull: the oldest queued transfer is gone and has used up one
    /// unit of credit, if there was any left.
    pub open spec fn pulled(self) -> LinkState {
        if self.queue.len() > 0 {
            LinkState {
                queue: self.queue.drop_first(),
                credit: if self.credit > 0 {
                    (self.credit - 1) as u32
                } else {
                    0
                },
                ..self
            }
        } else {
            self
        }
    }
}

/// Handle to the session's record of a receiver link. Handles to one link
/// share one record: what is done through one is seen through all.
#[derive(Debug)]
pub struct ReceiverLink {
    inner: Cell<ReceiverLinkInner>,
}

impl ReceiverLink {
    /// The identity of the record that this handle refers to.
    pub closed spec fn id(&self) -> int {
        self.inner.id()
    }

    /// Whether `after` differs from `before` in the record of this link
    /// alone, which is now `state`; as many handles share it as before.
    pub open spec fn moved(
        &self,
        before: &CellStore<ReceiverLinkInner>,
        after: &CellStore<ReceiverLinkInner>,
        state: LinkState,
    ) -> bool {
        &&& after.wf()
        &&& after@ == written(before@, self.id(), after.value(self.id()))
        &&& after.value(self.id())@ == state
    }

    /// The record and first handle for a link that the peer attached.
    pub fn new(links: &mut CellStore<ReceiverLinkInner>, attach: Attach, policy: ExcessPolicy) -> (link:
        Self)
        requires
            old(links).wf(),
        ensures
            final(links).wf(),
            link.id() == old(links)@.len(),
            final(links)@ == created(old(links)@, final(links).value(link.id())),
            final(links).value(link.id())@ == LinkState::attached(attach, policy),
    {
        let inner = ReceiverLinkInner {
            attach,
            policy,
            opened: false,
            closed: false,
            error: None,
            failure: None,
            credit: 0,
            queue: VecDeque::new(),
        };
        ReceiverLink { inner: Cell::new(links, inner) }
    }

    /// Whether the record of this link still exists in `links`.
    pub fn is_live(&self, links: &CellStore<ReceiverLinkInner>) -> (live: bool)
        requires
            links.wf(),
        ensures
            live == links.live(self.id()),
    {
        self.inner.is_live(links)
    }

    /// The number of handles to the record of this link.
    pub fn strong_count(&self, links: &CellStore<ReceiverLinkInner>) -> (count: usize)
        requires
            links.wf(),
        ensures
            count == links.strong(self.id()),
    {
        self.inner.strong_count(links)
    }

    /// Another handle to the same link.
    pub fn clone(&self, links: &mut CellStore<ReceiverLinkInner>) -> (link: Self)
        requires
            old(links).wf(),
            old(links).live(self.id()),
            old(links).strong(self.id()) < usize::MAX,
        ensures
            final(links).wf(),
            link.id() == self.id(),
            final(links)@ == retained(old(links)@, self.id()),
    {
        ReceiverLink { inner: self.inner.clone(links) }
    }

    /// Gives the handle up; with the last handle the record goes.
    pub fn release(self, links: &mut CellStore<ReceiverLinkInner>)
        requires
            old(links).wf(),
            old(links).live(self.id()),
        ensures
            final(links).wf(),
            final(links)@ == released(old(links)@, self.id()),
    {
        self.inner.release(links)
    }

    /// The attach frame of the link.
    pub fn frame<'a>(&self, links: &'a CellStore<ReceiverLinkInner>) -> (attach: &'a Attach)
        requires
            links.wf(),
            links.live(self.id()),
        ensures
            *attach == links.value(self.id())@.attach,
    {
        &self.inner.get_ref(links).attach
    }

    /// The credit that is left: what was granted and no pulled transfer has
    /// used up.
    pub fn credit(&self, links: &CellStore<ReceiverLinkInner>) -> (credit: u32)
        requires
            links.wf(),
            links.live(self.id()),
        ensures
            credit == links.value(self.id())@.credit,
    {
        self.inner.get_ref(links).credit
    }

    /// Whether the link was opened at the protocol level.
    pub fn is_open(&self, links: &CellStore<ReceiverLinkInner>) -> (opened: bool)
        requires
            links.wf(),
            links.live(self.id()),
        ensures
            opened == links.value(self.id())@.opened,
    {
        self.inner.get_ref(links).opened
    }

    /// Whether the link is detached.
    pub fn is_closed(&self, links: &CellStore<ReceiverLinkInner>) -> (closed: bool)
        requires
            links.wf(),
            links.live(self.id()),
        ensures
            closed == links.value(self.id())@.closed,
    {
        self.inner.get_ref(links).closed
    }

    /// The error that the link was detached with, if any.
    pub fn error<'a>(&self, links: &'a CellStore<ReceiverLinkInner>) -> (err: Option<&'a LinkError>)
        requires
            links.wf(),
            links.live(self.id()),
        ensures
            match err {
                Some(e) => links.value(self.id())@.error == Some(e@),
                None => links.value(self.id())@.error is None,
            },
    {
        self.inner.get_ref(links).error.as_ref()
    }

    /// How many transfers arrived and were not pulled yet.
    pub fn queued(&self, links: &CellStore<ReceiverLinkInner>) -> (len: usize)
        requires
            links.wf(),
            links.live(self.id()),
        ensures
            len == links.value(self.id())@.queue.len(),
    {
        self.inner.get_ref(links).queue.len()
    }

    /// Opens the link at the protocol level.
    pub fn open(&mut self, links: &mut CellStore<ReceiverLinkInner>)
        requires
            old(links).wf(),
            old(links).live(old(self).id()),
        ensures
            *final(self) == *old(self),
            old(self).moved(old(links), final(links), old(links).value(old(self).id())@.confirmed()),
    {
        let inner = self.inner.get_mut(links);
        inner.opened = true;
    }

    /// Grants `credit` more units of link credit to the peer.
    pub fn set_link_credit(&mut self, links: &mut CellStore<ReceiverLinkInner>, credit: u32)
        requires
            old(links).wf(),
            old(links).live(old(self).id()),
            old(links).value(old(self).id())@.credit + credit <= u32::MAX,
        ensures
            *final(self) == *old(self),
            old(self).moved(
                old(links),
                final(links),
                old(links).value(old(self).id())@.granted(credit),
            ),
    {
        let inner = self.inner.get_mut(links);
        inner.credit = inner.credit + credit;
    }

    /// Detaches the link with `err`. A link that is closed already keeps
    /// the state it was closed with.
    pub fn close_with_error(&mut self, links: &mut CellStore<ReceiverLinkInner>, err: LinkError)
        requires
            old(links).wf(),
            old(links).live(old(self).id()),
        ensures
            *final(self) == *old(self),
            old(self).moved(
                old(links),
                final(links),
                old(links).value(old(self).id())@.detached(Some(err@)),
            ),
    {
        let inner = self.inner.get_mut(links);
        if !inner.closed {
            inner.closed = true;
            inner.error = Some(err);
        }
    }

    /// Detaches the link without an error, as when the peer detached it.
    pub fn close(&mut self, links: &mut CellStore<ReceiverLinkInner>)
        requires
            old(links).wf(),
            old(links).live(old(self).id()),
        ensures
            *final(self) == *old(self),
            old(self).moved(old(links), final(links), old(links).value(old(self).id())@.detached(None)),
    {
        let inner = self.inner.get_mut(links);
        if !inner.closed {
            inner.closed = true;
            inner.error = None;
        }
    }

    /// Records that the session or the transport failed.
    pub fn fail(&mut self, links: &mut CellStore<ReceiverLinkInner>, failure: AmqpTransportError)
        requires
            old(links).wf(),
            old(links).live(old(self).id()),
        ensures
            *final(self) == *old(self),
            old(self).moved(old(links), final(links), old(links).value(old(self).id())@.failed(failure)),
    {
        let inner = self.inner.get_mut(links);
        if inner.failure.is_none() {
            inner.failure = Some(failure);
        }
    }

    /// Takes in a transfer that arrived from the peer.
    pub fn handle_transfer(&mut self, links: &mut CellStore<ReceiverLinkInner>, delivery: Delivery)
        requires
            old(links).wf(),
            old(links).live(old(self).id()),
        ensures
            *final(self) == *old(self),
            old(self).moved(
                old(links),
                final(links),
                old(links).value(old(self).id())@.received(delivery),
            ),
    {
        let inner = self.inner.get_mut(links);
        if inner.closed {
        } else if inner.queue.len() < inner.credit as usize {
            inner.queue.push_back(delivery);
        } else {
            match inner.policy {
                ExcessPolicy::Accept => {
                    inner.queue.push_back(delivery);
                },
                ExcessPolicy::Reject => {
                    inner.closed = true;
                    inner.error = Some(LinkError::transfer_limit_exceeded());
                },
            }
        }
    }

    /// Pulls the next transfer: the oldest one queued, which uses up one
    /// unit of credit; else the failure of the transport; else the end of
    /// the sequence on a closed link; else `NotReady`.
    pub fn poll(&mut self, links: &mut CellStore<ReceiverLinkInner>) -> (polled: Result<
        Async<Option<Delivery>>,
        AmqpTransportError,
    >)
        requires
            old(links).wf(),
            old(links).live(old(self).id()),
        ensures
            *final(self) == *old(self),
            polled == old(links).value(old(self).id())@.next(),
            old(self).moved(old(links), final(links), old(links).value(old(self).id())@.pulled()),
    {
        let inner = self.inner.get_mut(links);
        match inner.queue.pop_front() {
            Some(delivery) => {
                if inner.credit > 0 {
                    inner.credit = inner.credit - 1;
                }
                Ok(Async::Ready(Some(delivery)))
            },
            None => {
                match inner.failure {
                    Some(failure) => Err(failure),
                    None => {
                        if inner.closed {
                            Ok(Async::Ready(None))
                        } else {
                            Ok(Async::NotReady)
                        }
                    },
                }
            },
        }
    }
}

} // verus!
