//! A receiver link from attach to the end of its frames.
//!
//! An [`OpenLink`] is attached and yields nothing. Opening it grants the
//! first credit and turns it into a [`Link`], which yields one frame per
//! pull: a `Flow` frame whenever the link holds no credit, else the next
//! transfer as a `Message` frame.

use crate::cell::{released, retained, written, Cell, CellStore};
use crate::errors::{AmqpTransportError, LinkError, LinkErrorKind, LinkErrorView};
use crate::frames::Delivery;
use crate::proto::{Flow, Frame, Message};
use crate::rcvlink::{LinkState, ReceiverLink, ReceiverLinkInner};
use actix_router::Path;
use amqp_codec::protocol::Attach;
use futures::Async;
use vstd::prelude::*;

verus! {

/// `actix_router::Path`: a path and what a router matched in it. The link
/// carries it for the application's router and never looks inside.
#[verifier::external_type_specification]
#[verifier::external_body]
#[verifier::reject_recursive_types(T)]
pub struct ExPath<T>(Path<T>);

/// What `Path::new` of actix_router makes of a path text: a path with
/// nothing matched in it yet.
pub uninterp spec fn path_of(text: Seq<char>) -> Path<String>;

/// `Path::new` of actix_router, on an owned string.
#[verifier::external_body]
fn new_path(text: String) -> (path: Path<String>)
    ensures
        path == path_of(text@),
{
    Path::new(text)
}

/// The error with which a link is detached when a transfer comes without a
/// delivery identifier.
pub open spec fn missing_delivery_id() -> LinkErrorView {
    LinkErrorView {
        kind: LinkErrorKind::DetachForced,
        description: Some("delivery_id MUST be set"@),
    }
}

/// The record after a link was opened with `credit`: open at the protocol
/// level, with `credit` more units granted.
pub open spec fn open_link(link: LinkState, credit: u32) -> LinkState {
    link.confirmed().granted(credit)
}

/// The flag of a link that was opened with `credit`: it holds credit unless
/// none was granted.
pub open spec fn open_credit(credit: u32) -> bool {
    credit != 0
}

/// What one pull of a link yields.
pub enum Pulled {
    /// A `Flow` frame.
    Flow,
    /// A `Message` frame for this transfer.
    Message(Delivery),
    /// The end of the sequence.
    End,
    /// Nothing yet.
    Pending,
    /// The failure of the sequence.
    Failed(AmqpTransportError),
}

/// What a pull yields on a link with this flag and this record. Without
/// credit it is a `Flow` frame, whatever is queued; else what the record
/// has next.
pub open spec fn pull_yield(has_credit: bool, link: LinkState) -> Pulled {
    if !has_credit {
        Pulled::Flow
    } else {
        match link.next() {
            Ok(Async::Ready(Some(delivery))) => Pulled::Message(delivery),
            Ok(Async::Ready(None)) => Pulled::End,
            Ok(Async::NotReady) => Pulled::Pending,
            Err(failure) => Pulled::Failed(failure),
        }
    }
}

/// The record after that pull. A `Flow` frame takes nothing from it. A
/// transfer leaves the queue; one without a delivery identifier detaches the
/// link.
pub open spec fn pull_link(has_credit: bool, link: LinkState) -> LinkState {
    if !has_credit {
        link
    } else if link.queue.len() > 0 && link.queue[0].delivery_id is None {
        link.pulled().detached(Some(missing_delivery_id()))
    } else {
        link.pulled()
    }
}

/// The flag after that pull. A `Flow` frame sets it. After a transfer it
/// says whether the record reports credit left. Else it stays.
pub open spec fn pull_credit(has_credit: bool, link: LinkState) -> bool {
    if !has_credit {
        true
    } else if link.queue.len() > 0 {
        pull_link(has_credit, link).credit != 0
    } else {
        has_credit
    }
}

/// Which kind of result stands for which yield; the handles of a frame are
/// not part of it.
pub open spec fn yield_of<S>(polled: Result<Async<Option<Frame<S>>>, AmqpTransportError>) -> Pulled {
    match polled {
        Ok(Async::Ready(Some(Frame::Flow(_)))) => Pulled::Flow,
        Ok(Async::Ready(Some(Frame::Message(message)))) => Pulled::Message(message.delivery()),
        Ok(Async::Ready(None)) => Pulled::End,
        Ok(Async::NotReady) => Pulled::Pending,
        Err(failure) => Pulled::Failed(failure),
    }
}

/// Whether the frame in `polled`, if there is one, shares this application
/// state and this link record.
pub open spec fn frame_shares<S>(
    polled: Result<Async<Option<Frame<S>>>, AmqpTransportError>,
    state_id: int,
    link_id: int,
) -> bool {
    match polled {
        Ok(Async::Ready(Some(Frame::Flow(flow)))) => flow.state_id() == state_id && flow.link_id()
            == link_id,
        Ok(Async::Ready(Some(Frame::Message(message)))) => message.state_id() == state_id
            && message.link_id() == link_id,
        _ => true,
    }
}

/// A receiver link that is attached and not open yet.
#[derive(Debug)]
pub struct OpenLink<S> {
    state: Cell<S>,
    link: ReceiverLink,
    path: Path<String>,
}

/// An open receiver link: a sequence of frames, one per pull.
#[derive(Debug)]
pub struct Link<S> {
    state: Cell<S>,
    link: ReceiverLink,
    has_credit: bool,
}

impl<S> OpenLink<S> {
    /// The identity of the application state that this link shares.
    pub closed spec fn state_id(&self) -> int {
        self.state.id()
    }

    /// The identity of the link record that this link shares.
    pub closed spec fn link_id(&self) -> int {
        self.link.id()
    }

    /// The routing path of the link.
    pub closed spec fn route(&self) -> Path<String> {
        self.path
    }

    /// An attached link over the two handles, with an empty routing path.
    pub fn new(link: ReceiverLink, state: Cell<S>) -> (open: Self)
        ensures
            open.state_id() == state.id(),
            open.link_id() == link.id(),
            open.route() == path_of(Seq::empty()),
    {
        proof {
            reveal_strlit("");
        }
        let text = "".to_owned();
        assert(text@ =~= Seq::empty());
        OpenLink { state, link, path: new_path(text) }
    }

    /// The routing path.
    pub fn path(&self) -> (path: &Path<String>)
        ensures
            *path == self.route(),
    {
        &self.path
    }

    /// The routing path, for a router to match and rewrite.
    pub fn path_mut(&mut self) -> (path: &mut Path<String>)
        ensures
            *path == old(self).route(),
            final(self).route() == *final(path),
            final(self).state_id() == old(self).state_id(),
            final(self).link_id() == old(self).link_id(),
    {
        &mut self.path
    }

    /// The handle to the application state.
    pub fn state_handle(&self) -> (state: &Cell<S>)
        ensures
            state.id() == self.state_id(),
    {
        &self.state
    }

    /// The handle to the link record.
    pub fn link(&self) -> (link: &ReceiverLink)
        ensures
            link.id() == self.link_id(),
    {
        &self.link
    }

    /// The attach frame of the link.
    pub fn frame<'a>(&self, links: &'a CellStore<ReceiverLinkInner>) -> (attach: &'a Attach)
        requires
            links.wf(),
            links.live(self.link_id()),
        ensures
            *attach == links.value(self.link_id())@.attach,
    {
        self.link.frame(links)
    }

    /// The application state.
    pub fn state<'a>(&self, states: &'a CellStore<S>) -> (state: &'a S)
        requires
            states.wf(),
            states.live(self.state_id()),
        ensures
            *state == states.value(self.state_id()),
    {
        self.state.get_ref(states)
    }

    /// The application state, to change it.
    pub fn state_mut<'a>(&mut self, states: &'a mut CellStore<S>) -> (state: &'a mut S)
        requires
            old(states).wf(),
            old(states).live(old(self).state_id()),
        ensures
            *final(self) == *old(self),
            *state == old(states).value(old(self).state_id()),
            final(states).wf(),
            final(states)@ == written(old(states)@, old(self).state_id(), *final(state)),
    {
        self.state.get_mut(states)
    }

    /// Opens the link at the protocol level and grants `credit` units of
    /// credit to the peer. The link that comes out shares the same state and
    /// the same record; it holds credit unless `credit` is zero.
    pub fn open(self, links: &mut CellStore<ReceiverLinkInner>, credit: u32) -> (link: Link<S>)
        requires
            old(links).wf(),
            old(links).live(self.link_id()),
            old(links).value(self.link_id())@.credit + credit <= u32::MAX,
        ensures
            link.state_id() == self.state_id(),
            link.link_id() == self.link_id(),
            link.credited() == open_credit(credit),
            final(links).wf(),
            final(links)@ == written(
                old(links)@,
                self.link_id(),
                final(links).value(self.link_id()),
            ),
            final(links).value(self.link_id())@ == open_link(
                old(links).value(self.link_id())@,
                credit,
            ),
    {
        let mut this = self;
        this.link.open(links);
        this.link.set_link_credit(links, credit);
        Link { state: this.state, link: this.link, has_credit: credit != 0 }
    }

    /// Gives up the two handles that the link holds.
    pub fn release(self, states: &mut CellStore<S>, links: &mut CellStore<ReceiverLinkInner>)
        requires
            old(states).wf(),
            old(states).live(self.state_id()),
            old(links).wf(),
            old(links).live(self.link_id()),
        ensures
            final(states).wf(),
            final(states)@ == released(old(states)@, self.state_id()),
            final(links).wf(),
            final(links)@ == released(old(links)@, self.link_id()),
    {
        self.state.release(states);
        self.link.release(links);
    }
}

impl<S> Link<S> {
    /// The identity of the application state that this link shares.
    pub closed spec fn state_id(&self) -> int {
        self.state.id()
    }

    /// The identity of the link record that this link shares.
    pub closed spec fn link_id(&self) -> int {
        self.link.id()
    }

    /// Whether the next pull goes to the transfers: false where a `Flow`
    /// frame is owed first.
    pub closed spec fn credited(&self) -> bool {
        self.has_credit
    }

    /// Whether the next pull goes to the transfers.
    pub fn has_credit(&self) -> (has_credit: bool)
        ensures
            has_credit == self.credited(),
    {
        self.has_credit
    }

    /// The application state.
    pub fn state<'a>(&self, states: &'a CellStore<S>) -> (state: &'a S)
        requires
            states.wf(),
            states.live(self.state_id()),
        ensures
            *state == states.value(self.state_id()),
    {
        self.state.get_ref(states)
    }

    /// The application state, to change it.
    pub fn state_mut<'a>(&mut self, states: &'a mut CellStore<S>) -> (state: &'a mut S)
        requires
            old(states).wf(),
            old(states).live(old(self).state_id()),
        ensures
            *final(self) == *old(self),
            *state == old(states).value(old(self).state_id()),
            final(states).wf(),
            final(states)@ == written(old(states)@, old(self).state_id(), *final(state)),
    {
        self.state.get_mut(states)
    }

    /// The handle to the application state.
    pub fn state_handle(&self) -> (state: &Cell<S>)
        ensures
            state.id() == self.state_id(),
    {
        &self.state
    }

    /// The handle to the link record.
    pub fn link(&self) -> (link: &ReceiverLink)
        ensures
            link.id() == self.link_id(),
    {
        &self.link
    }

    /// Pulls the next frame.
    ///
    /// Without credit the pull yields a `Flow` frame at once and takes no
    /// transfer. With credit it yields what the link record has next: a
    /// transfer as a `Message` frame, the end, the failure, or `NotReady`.
    /// A transfer without a delivery identifier detaches the link and is
    /// yielded all the same. Each frame holds a new handle to the state and
    /// one to the record.
    pub fn poll(
        &mut self,
        states: &mut CellStore<S>,
        links: &mut CellStore<ReceiverLinkInner>,
    ) -> (polled: Result<Async<Option<Frame<S>>>, AmqpTransportError>)
        requires
            old(states).wf(),
            old(states).live(old(self).state_id()),
            old(states).strong(old(self).state_id()) < usize::MAX,
            old(links).wf(),
            old(links).live(old(self).link_id()),
            old(links).strong(old(self).link_id()) < usize::MAX,
        ensures
            final(self).state_id() == old(self).state_id(),
            final(self).link_id() == old(self).link_id(),
            yield_of(polled) == pull_yield(
                old(self).credited(),
                old(links).value(old(self).link_id())@,
            ),
            frame_shares(polled, old(self).state_id(), old(self).link_id()),
            final(self).credited() == pull_credit(
                old(self).credited(),
                old(links).value(old(self).link_id())@,
            ),
            final(links).wf(),
            final(links).live(old(self).link_id()),
            final(links).value(old(self).link_id())@ == pull_link(
                old(self).credited(),
                old(links).value(old(self).link_id())@,
            ),
            final(states).wf(),
            polled matches Ok(Async::Ready(Some(_))) ==> {
                &&& final(states)@ == retained(old(states)@, old(self).state_id())
                &&& final(links)@ == retained(
                    written(
                        old(links)@,
                        old(self).link_id(),
                        final(links).value(old(self).link_id()),
                    ),
                    old(self).link_id(),
                )
            },
            !(polled matches Ok(Async::Ready(Some(_)))) ==> {
                &&& final(states)@ == old(states)@
                &&& final(links)@ == written(
                    old(links)@,
                    old(self).link_id(),
                    final(links).value(old(self).link_id()),
                )
            },
    {
        if !self.has_credit {
            self.has_credit = true;
            let state = self.state.clone(states);
            let link = self.link.clone(links);
            Ok(Async::Ready(Some(Frame::Flow(Flow::new(state, link)))))
        } else {
            match self.link.poll(links) {
                Err(failure) => Err(failure),
                Ok(Async::NotReady) => Ok(Async::NotReady),
                Ok(Async::Ready(None)) => Ok(Async::Ready(None)),
                Ok(Async::Ready(Some(transfer))) => {
                    if transfer.lacks_id() {
                        let err = LinkError::force_detach().description("delivery_id MUST be set");
                        self.link.close_with_error(links, err);
                    }
                    self.has_credit = self.link.credit(links) != 0;
                    let state = self.state.clone(states);
                    let link = self.link.clone(links);
                    Ok(Async::Ready(Some(Frame::Message(Message::new(state, transfer, link)))))
                },
            }
        }
    }

    /// Gives up the two handles that the link holds.
    pub fn release(self, states: &mut CellStore<S>, links: &mut CellStore<ReceiverLinkInner>)
        requires
            old(states).wf(),
            old(states).live(self.state_id()),
            old(links).wf(),
            old(links).live(self.link_id()),
        ensures
            final(states).wf(),
            final(states)@ == released(old(states)@, self.state_id()),
            final(links).wf(),
            final(links)@ == released(old(links)@, self.link_id()),
    {
        self.state.release(states);
        self.link.release(links);
    }
}

/// A link that was opened without credit yields a `Flow` frame on its first
/// pull, whatever is queued on the record, and that pull takes nothing from
/// the record.
pub proof fn lemma_first_pull_without_credit(link: LinkState)
    ensures
        !open_credit(0),
        pull_yield(open_credit(0), open_link(link, 0)) == Pulled::Flow,
        pull_link(open_credit(0), open_link(link, 0)) == open_link(link, 0),
        open_link(link, 0).queue == link.queue,
{
}

/// A link that was opened with credit goes to the transfers on its first
/// pull: it yields no `Flow` frame but what the record has next, and the
/// record reports the credit that was granted.
pub proof fn lemma_first_pull_with_credit(link: LinkState, credit: u32)
    requires
        credit > 0,
        link.credit + credit <= u32::MAX,
    ensures
        open_credit(credit),
        open_link(link, credit).credit == link.credit + credit,
        open_link(link, credit).credit != 0,
        pull_yield(open_credit(credit), open_link(link, credit)) != Pulled::Flow,
        pull_yield(open_credit(credit), open_link(link, credit)) == match open_link(
            link,
            credit,
        ).next() {
            Ok(Async::Ready(Some(delivery))) => Pulled::Message(delivery),
            Ok(Async::Ready(None)) => Pulled::End,
            Ok(Async::NotReady) => Pulled::Pending,
            Err(failure) => Pulled::Failed(failure),
        },
{
}

/// A transfer without a delivery identifier, pulled from a link that is not
/// closed: it is yielded as a `Message` frame and leaves the queue, and the
/// link is detached with [`missing_delivery_id`]. The detach happens once:
/// no later detach changes the record. Where it was the last transfer and
/// the transport has not failed, the next pull of the transfers is the end.
pub proof fn lemma_missing_delivery_id_detaches(link: LinkState, later: Option<LinkErrorView>)
    requires
        link.queue.len() > 0,
        link.queue[0].delivery_id is None,
        !link.closed,
    ensures
        pull_yield(true, link) == Pulled::Message(link.queue[0]),
        pull_link(true, link).queue == link.queue.drop_first(),
        pull_link(true, link).closed,
        pull_link(true, link).error == Some(missing_delivery_id()),
        pull_link(true, link).detached(later) == pull_link(true, link),
        pull_link(true, pull_link(true, link)).error == Some(missing_delivery_id()),
        link.queue.len() == 1 && link.failure is None ==> pull_yield(true, pull_link(true, link))
            == Pulled::End,
{
}

/// A transfer with a delivery identifier leaves the link as open or closed
/// as it was.
pub proof fn lemma_delivery_id_keeps_link(link: LinkState)
    requires
        link.queue.len() > 0,
        link.queue[0].delivery_id is Some,
    ensures
        pull_yield(true, link) == Pulled::Message(link.queue[0]),
        pull_link(true, link) == link.pulled(),
        pull_link(true, link).closed == link.closed,
        pull_link(true, link).error == link.error,
{
}

/// After a `Message` frame the flag says whether the record reports credit
/// left, and the next pull yields a `Flow` frame exactly if it reports none.
pub proof fn lemma_credit_bookkeeping(link: LinkState)
    requires
        pull_yield(true, link) is Message,
    ensures
        pull_link(true, link).credit == link.pulled().credit,
        pull_credit(true, link) == (pull_link(true, link).credit != 0),
        pull_yield(pull_credit(true, link), pull_link(true, link)) == Pulled::Flow
            <==> pull_link(true, link).credit == 0,
{
}

/// A `Flow` frame is yielded once: the pull after it goes to the transfers,
/// however little credit the record reports.
pub proof fn lemma_flow_is_one_shot(link: LinkState)
    ensures
        pull_credit(false, link),
        pull_yield(pull_credit(false, link), pull_link(false, link)) != Pulled::Flow,
{
}

} // verus!
