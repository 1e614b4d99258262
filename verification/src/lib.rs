//! Receiving side of an AMQP 1.0 link: a credit-driven state machine over
//! state that several handles share.

pub mod cell;
pub mod errors;
pub mod frames;
pub mod link;
pub mod proto;
pub mod rcvlink;
