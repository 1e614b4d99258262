//! The frames that a link yields to the application.

use crate::cell::{released, written, Cell, CellStore};
use crate::frames::Delivery;
use crate::rcvlink::{ReceiverLink, ReceiverLinkInner};
use vstd::prelude::*;

verus! {

/// The link holds no credit: the application decides whether, and how much,
/// to grant. It carries handles to the application state and to the link.
#[derive(Debug)]
pub struct Flow<S> {
    state: Cell<S>,
    link: ReceiverLink,
}

/// A transfer that arrived on the link, with handles to the application
/// state and to the link.
#[derive(Debug)]
pub struct Message<S> {
    state: Cell<S>,
    frame: Delivery,
    link: ReceiverLink,
}

/// What a link yields, one per pull.
#[derive(Debug)]
pub enum Frame<S> {
    /// A point at which to decide on credit.
    Flow(Flow<S>),
    /// A delivered transfer.
    Message(Message<S>),
}

impl<S> Flow<S> {
    /// The identity of the application state that this frame shares.
    pub closed spec fn state_id(&self) -> int {
        self.state.id()
    }

    /// The identity of the link record that this frame shares.
    pub closed spec fn link_id(&self) -> int {
        self.link.id()
    }

    /// A flow frame over the two handles.
    pub fn new(state: Cell<S>, link: ReceiverLink) -> (flow: Self)
        ensures
            flow.state_id() == state.id(),
            flow.link_id() == link.id(),
    {
        Flow { state, link }
    }

    /// The application state.
    pub fn state<'a>(&self, states: &'a CellStore<S>) -> (state: &'a S)
        requires
            states.wf(),
            states.live(self.state_id()),
        ensures
            *state == states.value(self.state_id()),
    {
        self.state.get_ref(states)
    }

    /// The application state, to change it.
    pub fn state_mut<'a>(&mut self, states: &'a mut CellStore<S>) -> (state: &'a mut S)
        requires
            old(states).wf(),
            old(states).live(old(self).state_id()),
        ensures
            *final(self) == *old(self),
            *state == old(states).value(old(self).state_id()),
            final(states).wf(),
            final(states)@ == written(old(states)@, old(self).state_id(), *final(state)),
    {
        self.state.get_mut(states)
    }

    /// The handle to the application state.
    pub fn state_handle(&self) -> (state: &Cell<S>)
        ensures
            state.id() == self.state_id(),
    {
        &self.state
    }

    /// The handle to the link, to read it.
    pub fn link(&self) -> (link: &ReceiverLink)
        ensures
            link.id() == self.link_id(),
    {
        &self.link
    }

    /// The handle to the link, to grant credit or to close the link.
    pub fn link_mut(&mut self) -> (link: &mut ReceiverLink)
        ensures
            link.id() == old(self).link_id(),
            final(self).link_id() == final(link).id(),
            final(self).state_id() == old(self).state_id(),
    {
        &mut self.link
    }

    /// Gives up the two handles that the frame holds.
    pub fn release(self, states: &mut CellStore<S>, links: &mut CellStore<ReceiverLinkInner>)
        requires
            old(states).wf(),
            old(states).live(self.state_id()),
            old(links).wf(),
            old(links).live(self.link_id()),
        ensures
            final(states).wf(),
            final(states)@ == released(old(states)@, self.state_id()),
            final(links).wf(),
            final(links)@ == released(old(links)@, self.link_id()),
    {
        self.state.release(states);
        self.link.release(links);
    }
}

impl<S> Message<S> {
    /// The identity of the application state that this frame shares.
    pub closed spec fn state_id(&self) -> int {
        self.state.id()
    }

    /// The identity of the link record that this frame shares.
    pub closed spec fn link_id(&self) -> int {
        self.link.id()
    }

    /// The transfer that this frame delivers.
    pub closed spec fn delivery(&self) -> Delivery {
        self.frame
    }

    /// A message frame for `frame` over the two handles.
    pub fn new(state: Cell<S>, frame: Delivery, link: ReceiverLink) -> (message: Self)
        ensures
            message.state_id() == state.id(),
            message.link_id() == link.id(),
            message.delivery() == frame,
    {
        Message { state, frame, link }
    }

    /// The application state.
    pub fn state<'a>(&self, states: &'a CellStore<S>) -> (state: &'a S)
        requires
            states.wf(),
            states.live(self.state_id()),
        ensures
            *state == states.value(self.state_id()),
    {
        self.state.get_ref(states)
    }

    /// The application state, to change it.
    pub fn state_mut<'a>(&mut self, states: &'a mut CellStore<S>) -> (state: &'a mut S)
        requires
            old(states).wf(),
            old(states).live(old(self).state_id()),
        ensures
            *final(self) == *old(self),
            *state == old(states).value(old(self).state_id()),
            final(states).wf(),
            final(states)@ == written(old(states)@, old(self).state_id(), *final(state)),
    {
        self.state.get_mut(states)
    }

    /// The delivered transfer.
    pub fn frame(&self) -> (frame: &Delivery)
        ensures
            *frame == self.delivery(),
    {
        &self.frame
    }

    /// The handle to the application state.
    pub fn state_handle(&self) -> (state: &Cell<S>)
        ensures
            state.id() == self.state_id(),
    {
        &self.state
    }

    /// The handle to the link, to read it.
    pub fn link(&self) -> (link: &ReceiverLink)
        ensures
            link.id() == self.link_id(),
    {
        &self.link
    }

    /// The handle to the link, to grant credit or to close the link.
    pub fn link_mut(&mut self) -> (link: &mut ReceiverLink)
        ensures
            link.id() == old(self).link_id(),
            final(self).link_id() == final(link).id(),
            final(self).state_id() == old(self).state_id(),
            final(self).delivery() == old(self).delivery(),
    {
        &mut self.link
    }

    /// Gives up the two handles that the frame holds and hands out the
    /// transfer.
    pub fn release(
        self,
        states: &mut CellStore<S>,
        links: &mut CellStore<ReceiverLinkInner>,
    ) -> (frame: Delivery)
        requires
            old(states).wf(),
            old(states).live(self.state_id()),
            old(links).wf(),
            old(links).live(self.link_id()),
        ensures
            frame == self.delivery(),
            final(states).wf(),
            final(states)@ == released(old(states)@, self.state_id()),
            final(links).wf(),
            final(links)@ == released(old(links)@, self.link_id()),
    {
        self.state.release(states);
        self.link.release(links);
        self.frame
    }
}

} // verus!
