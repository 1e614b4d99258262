use amqp_link::errors::{AmqpTransportError, LinkError, LinkErrorKind};

#[test]
fn force_detach_has_no_description() {
    let err = LinkError::force_detach();
    assert_eq!(err.kind(), LinkErrorKind::DetachForced);
    assert_eq!(err.text(), None);
}

#[test]
fn description_keeps_the_kind() {
    let err = LinkError::force_detach().description("delivery_id MUST be set");
    assert_eq!(err.kind(), LinkErrorKind::DetachForced);
    assert_eq!(err.text(), Some("delivery_id MUST be set"));
}

#[test]
fn description_replaces_an_earlier_one() {
    let err = LinkError::transfer_limit_exceeded().description("one").description("two");
    assert_eq!(err.kind(), LinkErrorKind::TransferLimitExceeded);
    assert_eq!(err.text(), Some("two"));
}

#[test]
fn transport_errors_differ() {
    assert_ne!(AmqpTransportError::Disconnected, AmqpTransportError::Timeout);
    assert_ne!(AmqpTransportError::Timeout, AmqpTransportError::SessionEnded);
}
