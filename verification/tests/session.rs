use std::sync::mpsc::sync_channel;
use std::sync::mpsc::TryRecvError;
use std::sync::Arc;

use hidpp::chan::ReportChannelSender;
use hidpp::receiver::EventClass;
use hidpp::receiver::PendingAnswer;
use hidpp::report::FapBuilder;
use hidpp::report::HidppReport;
use hidpp::sender::FapCommandSyncSender;
use hidpp::shared::SharedDispatcher;

fn report_with(feature_index: u8, funcindex_clientid: u8, params: &[u8]) -> HidppReport {
    let mut bytes = vec![0u8; 20];
    bytes[0] = 0x11;
    bytes[2] = feature_index;
    bytes[3] = funcindex_clientid;
    for (i, b) in params.iter().enumerate() {
        bytes[4 + i] = *b;
    }
    HidppReport::from_bytes(&bytes).unwrap()
}

#[test]
fn shared_dispatcher_delivers_answers_and_broadcasts() {
    // The same slot is reachable through a shared reference from the read
    // path and the command path: attach, deliver, detach, broadcast, and
    // discard all work through `&SharedDispatcher`.
    let (broadcast_tx, broadcast_rx) = sync_channel(8);
    let (answer_tx, answer_rx) = sync_channel(8);
    let dispatcher = SharedDispatcher::new(broadcast_tx);
    let question = HidppReport::new(FapBuilder::new().feature_index(0x05).funcindex(0x01));
    dispatcher.attach_pending_answer(PendingAnswer {
        question,
        answer: ReportChannelSender::new(answer_tx),
    });
    assert!(dispatcher.has_pending_answer());

    let answer = report_with(0x05, 0x12, &[0xAB]);
    assert_eq!(dispatcher.process_event(answer.clone()), EventClass::Answer);
    assert_eq!(answer_rx.try_recv().unwrap(), answer);
    assert!(dispatcher.has_pending_answer());

    dispatcher.detach_pending_answer();
    assert!(!dispatcher.has_pending_answer());

    let event = report_with(0x06, 0x00, &[]);
    assert_eq!(dispatcher.process_event(event.clone()), EventClass::Broadcast);
    assert_eq!(broadcast_rx.try_recv().unwrap(), event);

    let foreign = report_with(0x06, 0x03, &[]);
    assert_eq!(dispatcher.process_event(foreign), EventClass::Foreign);
    assert_eq!(broadcast_rx.try_recv().unwrap_err(), TryRecvError::Empty);
}

#[test]
fn dispatcher_is_shared_between_reader_and_sender() {
    // The sender and an independent handle to the dispatcher can coexist:
    // what a reader loop would do per frame (process_event through one
    // Arc clone) composes with the sender owning the other clone.
    let (broadcast_tx, broadcast_rx) = sync_channel(8);
    let dispatcher = Arc::new(SharedDispatcher::new(broadcast_tx));
    let reader_handle = Arc::clone(&dispatcher);

    let sender = FapCommandSyncSender::new(
        hidpp::reportcollector::ReportCollector::new(),
        dispatcher,
    );

    let event = report_with(0x06, 0x00, &[0x01]);
    assert_eq!(
        reader_handle.process_event(event.clone()),
        EventClass::Broadcast
    );
    assert_eq!(broadcast_rx.try_recv().unwrap(), event);
    assert!(!sender.processor.has_pending_answer());
    assert!(!reader_handle.has_pending_answer());
}
