use std::sync::mpsc::sync_channel;
use std::sync::mpsc::TryRecvError;

use hidpp::receiver::classify_event;
use hidpp::receiver::match_answer;
use hidpp::receiver::match_error;
use hidpp::receiver::EventClass;
use hidpp::receiver::FapCommandEventReceiver;
use hidpp::chan::ReportChannelSender;
use hidpp::receiver::PendingAnswer;
use hidpp::receiver::ReportQueue;
use hidpp::report::FapBuilder;
use hidpp::report::HidppReport;

fn question() -> HidppReport {
    // feature 0x05, function 0x01, client id 0x02
    HidppReport::new(FapBuilder::new().feature_index(0x05).funcindex(0x01))
}

fn report_with(feature_index: u8, funcindex_clientid: u8, params: &[u8]) -> HidppReport {
    let mut bytes = vec![0u8; 20];
    bytes[0] = 0x11;
    bytes[2] = feature_index;
    bytes[3] = funcindex_clientid;
    for (i, b) in params.iter().enumerate() {
        bytes[4 + i] = *b;
    }
    HidppReport::from_bytes(&bytes).unwrap()
}

#[test]
fn matching_direct_answer() {
    let q = question();
    let answer = report_with(0x05, 0x12, &[0xAA]);
    assert!(match_answer(&q, &answer));
    assert_eq!(classify_event(Some(&q), &answer), EventClass::Answer);
}

#[test]
fn matching_protocol_error() {
    let q = question();
    let error = report_with(0xFF, 0x05, &[0x12, 0x02]);
    assert!(match_error(&q, &error));
    assert!(!match_answer(&q, &error));
    assert_eq!(classify_event(Some(&q), &error), EventClass::ProtocolError);
}

#[test]
fn non_interference_foreign_client() {
    // Same feature, but another client's id in the low nibble: no match,
    // and not a broadcast either.
    let q = question();
    let foreign = report_with(0x05, 0x13, &[]);
    assert!(!match_answer(&q, &foreign));
    assert!(!match_error(&q, &foreign));
    assert_eq!(classify_event(Some(&q), &foreign), EventClass::Foreign);
    assert_eq!(classify_event(None, &foreign), EventClass::Foreign);
}

#[test]
fn broadcast_without_registration() {
    let event = report_with(0x05, 0x10, &[]);
    assert_eq!(classify_event(None, &event), EventClass::Broadcast);
}

#[test]
fn foreign_traffic_is_discarded() {
    let (broadcast_tx, broadcast_rx) = sync_channel(8);
    let (answer_tx, answer_rx) = sync_channel(8);
    let mut receiver = FapCommandEventReceiver::new(ReportQueue::new(vec![]), broadcast_tx);
    receiver.attach_pending_answer(PendingAnswer {
        question: question(),
        answer: ReportChannelSender::new(answer_tx),
    });

    receiver.process_event(report_with(0x05, 0x13, &[]));

    assert_eq!(answer_rx.try_recv().unwrap_err(), TryRecvError::Empty);
    assert_eq!(broadcast_rx.try_recv().unwrap_err(), TryRecvError::Empty);
}

#[test]
fn answer_is_delivered_and_registration_kept() {
    let (broadcast_tx, broadcast_rx) = sync_channel(8);
    let (answer_tx, answer_rx) = sync_channel(8);
    let mut receiver = FapCommandEventReceiver::new(ReportQueue::new(vec![]), broadcast_tx);
    receiver.attach_pending_answer(PendingAnswer {
        question: question(),
        answer: ReportChannelSender::new(answer_tx),
    });

    let answer = report_with(0x05, 0x12, &[0xAB, 0xCD]);
    receiver.process_event(answer.clone());

    assert_eq!(answer_rx.try_recv().unwrap(), answer);
    assert_eq!(broadcast_rx.try_recv().unwrap_err(), TryRecvError::Empty);
    // Processing never clears the slot: only the sending call does.
    assert!(receiver.has_pending_answer());

    let error = report_with(0xFF, 0x05, &[0x12, 0x04]);
    receiver.process_event(error.clone());
    assert_eq!(answer_rx.try_recv().unwrap(), error);
}

#[test]
fn broadcasts_are_forwarded_in_order() {
    let first = report_with(0x05, 0x00, &[1]);
    let second = report_with(0x06, 0x10, &[2]);
    let third = report_with(0x07, 0x20, &[3]);
    let (broadcast_tx, broadcast_rx) = sync_channel(8);
    let mut receiver = FapCommandEventReceiver::new(
        ReportQueue::new(vec![first.clone(), second.clone(), third.clone()]),
        broadcast_tx,
    );

    receiver.receive();

    assert_eq!(broadcast_rx.try_recv().unwrap(), first);
    assert_eq!(broadcast_rx.try_recv().unwrap(), second);
    assert_eq!(broadcast_rx.try_recv().unwrap(), third);
    assert_eq!(broadcast_rx.try_recv().unwrap_err(), TryRecvError::Empty);
}

#[test]
fn detach_is_idempotent() {
    let (broadcast_tx, _broadcast_rx) = sync_channel(8);
    let (answer_tx, _answer_rx) = sync_channel(8);
    let mut receiver = FapCommandEventReceiver::new(ReportQueue::new(vec![]), broadcast_tx);
    assert!(!receiver.has_pending_answer());
    receiver.attach_pending_answer(PendingAnswer {
        question: question(),
        answer: ReportChannelSender::new(answer_tx),
    });
    assert!(receiver.has_pending_answer());
    receiver.detach_pending_answer();
    assert!(!receiver.has_pending_answer());
    receiver.detach_pending_answer();
    assert!(!receiver.has_pending_answer());
}
