//! The protocol values that travel through a link, as far as the link reads
//! them.

use amqp_codec::protocol::{Attach, Transfer};
use futures::Async;
use vstd::prelude::*;

verus! {

/// `amqp_codec::protocol::Attach`, the frame that establishes a link. The
/// link carries it and never looks inside.
#[verifier::external_type_specification]
#[verifier::external_body]
pub struct ExAttach(Attach);

/// `amqp_codec::protocol::Transfer`, the frame that carries a message. The
/// link carries it and never looks inside; what it reads of a transfer
/// stands in [`Delivery`].
#[verifier::external_type_specification]
#[verifier::external_body]
pub struct ExTransfer(Transfer);

/// `futures::Async`, with its two variants as the crate defines them:
/// `Ready` with a value, and `NotReady`.
#[verifier::external_type_specification]
#[verifier::reject_recursive_types(T)]
pub struct ExAsync<T>(Async<T>);

/// An inbound transfer together with what the link reads of it.
#[derive(Debug)]
pub struct Delivery {
    /// The delivery identifier of the transfer, if the peer set one.
    pub delivery_id: Option<u32>,
    /// The transfer as the codec parsed it.
    pub transfer: Transfer,
}

/// `Transfer::delivery_id` of amqp_codec: the delivery identifier that the
/// transfer carries, if any. Nothing is claimed of it here.
#[verifier::external_body]
fn transfer_delivery_id(transfer: &Transfer) -> Option<u32> {
    transfer.delivery_id()
}

impl Delivery {
    /// The delivery for `transfer`, with the identifier that the codec
    /// reports for it.
    pub fn new(transfer: Transfer) -> (delivery: Self)
        ensures
            delivery.transfer == transfer,
    {
        let delivery_id = transfer_delivery_id(&transfer);
        Delivery { delivery_id, transfer }
    }

    /// Whether the transfer came without a delivery identifier, which this
    /// receiver does not support.
    pub fn lacks_id(&self) -> (lacks: bool)
        ensures
            lacks == (self.delivery_id is None),
    {
        self.delivery_id.is_none()
    }
}

} // verus!
