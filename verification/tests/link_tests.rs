use amqp_codec::protocol::{Attach, ReceiverSettleMode, Role, SenderSettleMode, Transfer};
use amqp_link::cell::{Cell, CellStore};
use amqp_link::errors::{AmqpTransportError, LinkErrorKind};
use amqp_link::frames::Delivery;
use amqp_link::link::{Link, OpenLink};
use amqp_link::proto::{Flow, Frame, Message};
use amqp_link::rcvlink::{ExcessPolicy, ReceiverLink, ReceiverLinkInner};
use futures::Async;

type Polled = Result<Async<Option<Frame<u32>>>, AmqpTransportError>;

fn attach(name: &str) -> Attach {
    Attach {
        name: name.into(),
        handle: 3,
        role: Role::Sender,
        snd_settle_mode: SenderSettleMode::Mixed,
        rcv_settle_mode: ReceiverSettleMode::First,
        source: None,
        target: None,
        unsettled: None,
        incomplete_unsettled: false,
        initial_delivery_count: None,
        max_message_size: None,
        offered_capabilities: None,
        desired_capabilities: None,
        properties: None,
    }
}

fn transfer(delivery_id: Option<u32>) -> Delivery {
    Delivery::new(Transfer {
        handle: 3,
        delivery_id,
        delivery_tag: None,
        message_format: None,
        settled: None,
        more: false,
        rcv_settle_mode: None,
        state: None,
        resume: false,
        aborted: false,
        batchable: false,
        body: None,
    })
}

struct Bench {
    states: CellStore<u32>,
    links: CellStore<ReceiverLinkInner>,
    session: ReceiverLink,
}

fn attached(policy: ExcessPolicy) -> (Bench, OpenLink<u32>) {
    let mut states: CellStore<u32> = CellStore::new();
    let mut links: CellStore<ReceiverLinkInner> = CellStore::new();
    let state = Cell::new(&mut states, 100);
    let link = ReceiverLink::new(&mut links, attach("inbox"), policy);
    let session = link.clone(&mut links);
    (Bench { states, links, session }, OpenLink::new(link, state))
}

fn opened(policy: ExcessPolicy, credit: u32) -> (Bench, Link<u32>) {
    let (mut bench, open) = attached(policy);
    let link = open.open(&mut bench.links, credit);
    (bench, link)
}

fn flow(polled: Polled) -> Flow<u32> {
    match polled {
        Ok(Async::Ready(Some(Frame::Flow(flow)))) => flow,
        other => panic!("expected a flow frame, got {:?}", other),
    }
}

fn message(polled: Polled) -> Message<u32> {
    match polled {
        Ok(Async::Ready(Some(Frame::Message(message)))) => message,
        other => panic!("expected a message frame, got {:?}", other),
    }
}

#[test]
fn an_attached_link_has_an_empty_path() {
    let (_bench, open) = attached(ExcessPolicy::Reject);
    assert_eq!(open.path().path(), "");
    assert!(open.path().is_empty());
}

#[test]
fn the_path_can_be_rewritten() {
    let (_bench, mut open) = attached(ExcessPolicy::Reject);
    *open.path_mut().get_mut() = String::from("/queue/a");
    assert_eq!(open.path().path(), "/queue/a");
}

#[test]
fn an_attached_link_shows_its_attach_frame() {
    let (bench, open) = attached(ExcessPolicy::Reject);
    assert_eq!(open.frame(&bench.links), &attach("inbox"));
}

#[test]
fn an_attached_link_emits_nothing() {
    let (bench, _open) = attached(ExcessPolicy::Reject);
    assert!(!bench.session.is_open(&bench.links));
    assert_eq!(bench.session.credit(&bench.links), 0);
}

#[test]
fn state_is_shared_between_the_link_and_its_frames() {
    let (mut bench, mut open) = attached(ExcessPolicy::Reject);
    assert_eq!(*open.state(&bench.states), 100);
    *open.state_mut(&mut bench.states) = 101;
    let mut link = open.open(&mut bench.links, 0);
    assert_eq!(*link.state(&bench.states), 101);
    let mut frame = flow(link.poll(&mut bench.states, &mut bench.links));
    *frame.state_mut(&mut bench.states) += 1;
    assert_eq!(*link.state(&bench.states), 102);
    *link.state_mut(&mut bench.states) += 1;
    assert_eq!(*frame.state(&bench.states), 103);
}

#[test]
fn open_opens_the_link_and_grants_the_credit() {
    let (bench, link) = opened(ExcessPolicy::Reject, 5);
    assert!(bench.session.is_open(&bench.links));
    assert_eq!(bench.session.credit(&bench.links), 5);
    assert!(link.has_credit());
}

#[test]
fn open_without_credit_owes_a_flow_frame() {
    let (bench, link) = opened(ExcessPolicy::Reject, 0);
    assert!(bench.session.is_open(&bench.links));
    assert_eq!(bench.session.credit(&bench.links), 0);
    assert!(!link.has_credit());
}

#[test]
fn without_credit_the_first_pull_is_a_flow_frame_whatever_is_queued() {
    let (mut bench, open) = attached(ExcessPolicy::Accept);
    bench.session.handle_transfer(&mut bench.links, transfer(Some(1)));
    bench.session.handle_transfer(&mut bench.links, transfer(Some(2)));
    let mut link = open.open(&mut bench.links, 0);
    let _frame = flow(link.poll(&mut bench.states, &mut bench.links));
    assert_eq!(bench.session.queued(&bench.links), 2);
    assert!(link.has_credit());
}

#[test]
fn with_credit_the_first_pull_goes_to_the_transfers() {
    for credit in [1u32, 2, 7, u32::MAX] {
        let (mut bench, mut link) = opened(ExcessPolicy::Reject, credit);
        assert!(matches!(
            link.poll(&mut bench.states, &mut bench.links),
            Ok(Async::NotReady)
        ));
        bench.session.handle_transfer(&mut bench.links, transfer(Some(9)));
        let frame = message(link.poll(&mut bench.states, &mut bench.links));
        assert_eq!(frame.frame().delivery_id, Some(9));
    }
}

#[test]
fn a_flow_frame_is_yielded_once() {
    let (mut bench, mut link) = opened(ExcessPolicy::Reject, 0);
    let _frame = flow(link.poll(&mut bench.states, &mut bench.links));
    assert!(matches!(
        link.poll(&mut bench.states, &mut bench.links),
        Ok(Async::NotReady)
    ));
    assert!(matches!(
        link.poll(&mut bench.states, &mut bench.links),
        Ok(Async::NotReady)
    ));
}

#[test]
fn a_frame_holds_handles_of_its_own() {
    let (mut bench, mut link) = opened(ExcessPolicy::Reject, 0);
    assert_eq!(bench.session.is_live(&bench.links), true);
    let frame = flow(link.poll(&mut bench.states, &mut bench.links));
    link.release(&mut bench.states, &mut bench.links);
    assert_eq!(*frame.state(&bench.states), 100);
    assert!(frame.link().is_live(&bench.links));
    let weak_probe = Cell::new(&mut bench.states, 0);
    frame.release(&mut bench.states, &mut bench.links);
    assert!(weak_probe.is_live(&bench.states));
    assert_eq!(bench.states.len(), 2);
}

#[test]
fn the_state_goes_with_the_last_holder() {
    let mut states: CellStore<u32> = CellStore::new();
    let mut links: CellStore<ReceiverLinkInner> = CellStore::new();
    let state = Cell::new(&mut states, 5);
    let weak = state.downgrade();
    let record = ReceiverLink::new(&mut links, attach("inbox"), ExcessPolicy::Reject);
    let mut link = OpenLink::new(record, state).open(&mut links, 0);
    let frame = flow(link.poll(&mut states, &mut links));
    assert_eq!(weak.strong_count(&states), 2);
    link.release(&mut states, &mut links);
    let upgraded = weak.upgrade(&mut states).expect("the frame keeps the state alive");
    upgraded.release(&mut states);
    frame.release(&mut states, &mut links);
    assert!(weak.upgrade(&mut states).is_none());
}

#[test]
fn a_transfer_without_delivery_id_detaches_the_link_and_is_still_yielded() {
    let (mut bench, mut link) = opened(ExcessPolicy::Reject, 2);
    bench.session.handle_transfer(&mut bench.links, transfer(None));
    let frame = message(link.poll(&mut bench.states, &mut bench.links));
    assert_eq!(frame.frame().delivery_id, None);
    assert!(bench.session.is_closed(&bench.links));
    let err = bench.session.error(&bench.links).expect("the link was detached with an error");
    assert_eq!(err.kind(), LinkErrorKind::DetachForced);
    assert_eq!(err.text(), Some("delivery_id MUST be set"));
    assert!(matches!(
        link.poll(&mut bench.states, &mut bench.links),
        Ok(Async::Ready(None))
    ));
    assert!(matches!(
        link.poll(&mut bench.states, &mut bench.links),
        Ok(Async::Ready(None))
    ));
}

#[test]
fn a_second_transfer_without_delivery_id_does_not_detach_again() {
    let (mut bench, mut link) = opened(ExcessPolicy::Reject, 3);
    bench.session.handle_transfer(&mut bench.links, transfer(None));
    bench.session.handle_transfer(&mut bench.links, transfer(None));
    let _first = message(link.poll(&mut bench.states, &mut bench.links));
    bench.session.close_with_error(
        &mut bench.links,
        amqp_link::errors::LinkError::transfer_limit_exceeded(),
    );
    let _second = message(link.poll(&mut bench.states, &mut bench.links));
    let err = bench.session.error(&bench.links).expect("the link was detached with an error");
    assert_eq!(err.kind(), LinkErrorKind::DetachForced);
    assert_eq!(err.text(), Some("delivery_id MUST be set"));
}

#[test]
fn a_transfer_with_delivery_id_leaves_the_link_open() {
    let (mut bench, mut link) = opened(ExcessPolicy::Reject, 2);
    bench.session.handle_transfer(&mut bench.links, transfer(Some(0)));
    let frame = message(link.poll(&mut bench.states, &mut bench.links));
    assert_eq!(frame.frame().delivery_id, Some(0));
    assert!(!bench.session.is_closed(&bench.links));
    assert!(bench.session.error(&bench.links).is_none());
}

#[test]
fn after_a_message_the_flag_follows_the_credit_that_is_left() {
    let (mut bench, mut link) = opened(ExcessPolicy::Reject, 2);
    bench.session.handle_transfer(&mut bench.links, transfer(Some(1)));
    bench.session.handle_transfer(&mut bench.links, transfer(Some(2)));
    let _first = message(link.poll(&mut bench.states, &mut bench.links));
    assert_eq!(bench.session.credit(&bench.links), 1);
    assert!(link.has_credit());
    let _second = message(link.poll(&mut bench.states, &mut bench.links));
    assert_eq!(bench.session.credit(&bench.links), 0);
    assert!(!link.has_credit());
    let _frame = flow(link.poll(&mut bench.states, &mut bench.links));
}

#[test]
fn credit_granted_behind_the_link_is_seen_at_the_next_message() {
    let (mut bench, mut link) = opened(ExcessPolicy::Reject, 1);
    bench.session.handle_transfer(&mut bench.links, transfer(Some(1)));
    bench.session.set_link_credit(&mut bench.links, 4);
    let _first = message(link.poll(&mut bench.states, &mut bench.links));
    assert_eq!(bench.session.credit(&bench.links), 4);
    assert!(link.has_credit());
    assert!(matches!(
        link.poll(&mut bench.states, &mut bench.links),
        Ok(Async::NotReady)
    ));
}

#[test]
fn a_failure_of_the_transport_fails_the_pull() {
    let (mut bench, mut link) = opened(ExcessPolicy::Reject, 1);
    bench.session.fail(&mut bench.links, AmqpTransportError::Timeout);
    assert!(matches!(
        link.poll(&mut bench.states, &mut bench.links),
        Err(AmqpTransportError::Timeout)
    ));
    assert!(link.has_credit());
}

#[test]
fn a_failure_does_not_hold_back_the_flow_frame() {
    let (mut bench, mut link) = opened(ExcessPolicy::Reject, 0);
    bench.session.fail(&mut bench.links, AmqpTransportError::SessionEnded);
    let _frame = flow(link.poll(&mut bench.states, &mut bench.links));
    assert!(matches!(
        link.poll(&mut bench.states, &mut bench.links),
        Err(AmqpTransportError::SessionEnded)
    ));
}

#[test]
fn closing_through_a_frame_is_seen_by_the_next_pull() {
    let (mut bench, mut link) = opened(ExcessPolicy::Reject, 0);
    let mut frame = flow(link.poll(&mut bench.states, &mut bench.links));
    frame.link_mut().close_with_error(
        &mut bench.links,
        amqp_link::errors::LinkError::force_detach().description("not wanted"),
    );
    assert!(matches!(
        link.poll(&mut bench.states, &mut bench.links),
        Ok(Async::Ready(None))
    ));
    assert!(link.link().is_closed(&bench.links));
}

#[test]
fn scenario_one_credit_then_flow_then_grant() {
    let (mut bench, mut link) = opened(ExcessPolicy::Reject, 1);
    bench.session.handle_transfer(&mut bench.links, transfer(Some(1)));
    let first = message(link.poll(&mut bench.states, &mut bench.links));
    assert_eq!(first.frame().delivery_id, Some(1));
    assert_eq!(first.link().credit(&bench.links), 0);
    let mut notice = flow(link.poll(&mut bench.states, &mut bench.links));
    notice.link_mut().set_link_credit(&mut bench.links, 1);
    bench.session.handle_transfer(&mut bench.links, transfer(Some(2)));
    let second = message(link.poll(&mut bench.states, &mut bench.links));
    assert_eq!(second.frame().delivery_id, Some(2));
    assert!(!bench.session.is_closed(&bench.links));
}

#[test]
fn scenario_no_credit_then_grant_two() {
    let (mut bench, mut link) = opened(ExcessPolicy::Reject, 0);
    let mut notice = flow(link.poll(&mut bench.states, &mut bench.links));
    assert_eq!(bench.session.queued(&bench.links), 0);
    notice.link_mut().set_link_credit(&mut bench.links, 2);
    bench.session.handle_transfer(&mut bench.links, transfer(Some(1)));
    bench.session.handle_transfer(&mut bench.links, transfer(Some(2)));
    assert_eq!(bench.session.queued(&bench.links), 2);
    let first = message(link.poll(&mut bench.states, &mut bench.links));
    assert_eq!(first.frame().delivery_id, Some(1));
    let second = message(link.poll(&mut bench.states, &mut bench.links));
    assert_eq!(second.frame().delivery_id, Some(2));
    let _again = flow(link.poll(&mut bench.states, &mut bench.links));
    assert!(!bench.session.is_closed(&bench.links));
}

#[test]
fn releasing_a_message_hands_out_the_transfer() {
    let (mut bench, mut link) = opened(ExcessPolicy::Reject, 1);
    bench.session.handle_transfer(&mut bench.links, transfer(Some(4)));
    let frame = message(link.poll(&mut bench.states, &mut bench.links));
    let delivery = frame.release(&mut bench.states, &mut bench.links);
    assert_eq!(delivery.delivery_id, Some(4));
    assert_eq!(delivery.transfer.delivery_id, Some(4));
    assert_eq!(*link.state(&bench.states), 100);
}

#[test]
fn frames_can_be_made_by_hand() {
    let mut states: CellStore<u32> = CellStore::new();
    let mut links: CellStore<ReceiverLinkInner> = CellStore::new();
    let state = Cell::new(&mut states, 1);
    let record = ReceiverLink::new(&mut links, attach("inbox"), ExcessPolicy::Reject);
    let state_too = state.clone(&mut states);
    let record_too = record.clone(&mut links);
    let notice = Flow::new(state, record);
    let frame = Message::new(state_too, transfer(Some(8)), record_too);
    assert_eq!(*notice.state(&states), 1);
    assert_eq!(frame.frame().delivery_id, Some(8));
    assert_eq!(frame.link().credit(&links), 0);
}
