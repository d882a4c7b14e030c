use std::sync::mpsc::sync_channel;
use std::sync::Arc;

use hidpp::chan::ReportChannelSender;
use hidpp::error::CommandError;
use hidpp::report::FapBuilder;
use hidpp::report::HidppReport;
use hidpp::reportcollector::ReportCollector;
use hidpp::sender::FapCommandSyncSender;
use hidpp::sender::ReportAsyncSender;
use hidpp::sender::TransportError;
use hidpp::shared::SharedDispatcher;
use hidpp::wait::wait_event_timeout;
use hidpp::wait::WaitError;

struct FailingSender;

impl ReportAsyncSender for FailingSender {
    fn send(&mut self, _report: &mut HidppReport) -> Result<(), TransportError> {
        Err(TransportError::Rejected)
    }
}

fn new_sync_sender<RAS: ReportAsyncSender>(transport: RAS) -> FapCommandSyncSender<RAS> {
    let (broadcast_tx, _broadcast_rx) = sync_channel(8);
    let dispatcher = Arc::new(SharedDispatcher::new(broadcast_tx));
    FapCommandSyncSender::new(transport, dispatcher)
}

#[test]
fn send_times_out_and_clears_registration() {
    // Nothing ever answers: the call must resolve with a timeout after the
    // five-second window, leave the slot clear, and a subsequent call must
    // be able to register again.
    let mut sender = new_sync_sender(ReportCollector::new());
    let fap = FapBuilder::new().feature_index(0x00).funcindex(0x00);
    let result = sender.send(fap);
    assert_eq!(result, Err(CommandError::TimedOut));
    assert!(!sender.processor.has_pending_answer());

    let fap = FapBuilder::new().feature_index(0x00).funcindex(0x01);
    let result = sender.send(fap);
    assert_eq!(result, Err(CommandError::TimedOut));
    assert!(!sender.processor.has_pending_answer());
}

#[test]
fn send_builds_and_hands_the_frame_to_the_transport() {
    let mut sender = new_sync_sender(ReportCollector::new());
    let fap = FapBuilder::new()
        .feature_index(0x05)
        .funcindex(0x01)
        .params(&[0xAA, 0xBB]);
    let _ = sender.send(fap);

    assert_eq!(sender.sender.reports.len(), 1);
    let sent = &sender.sender.reports[0];
    assert_eq!(sent.report_id, 0x11);
    assert_eq!(sent.fap.feature_index, 0x05);
    assert_eq!(sent.fap.funcindex_clientid, 0x12);
    assert_eq!(sent.fap.params[0], 0xAA);
    assert_eq!(sent.fap.params[1], 0xBB);
    assert_eq!(sent.fap.params[2], 0x00);
}

#[test]
fn transport_failure_propagates_and_clears_registration() {
    let mut sender = new_sync_sender(FailingSender);
    let fap = FapBuilder::new().feature_index(0x00).funcindex(0x00);
    let result = sender.send(fap);
    assert_eq!(result, Err(CommandError::Transport));
    assert!(!sender.processor.has_pending_answer());
}

#[test]
fn collecting_features_fails_cleanly_without_a_device() {
    // The lookup of the first feature gets no answer, so collection fails
    // with the timeout after the five-second window, and the slot is free.
    let sender = new_sync_sender(ReportCollector::new());
    let mut context = hidpp::context::Context::new(sender, sync_channel(0).1);
    let result = hidpp::features::collect_features(&mut context);
    assert!(matches!(
        result,
        Err(hidpp::features::FeatureError::Internal(CommandError::TimedOut))
    ));
    assert!(!context.sender.processor.has_pending_answer());
}

#[test]
fn context_send_resolves_to_one_outcome() {
    let sender = new_sync_sender(FailingSender);
    let mut context = hidpp::context::Context::new(sender, sync_channel(0).1);
    let result = context.send(0x05, 0x01, &[0xAA]);
    assert_eq!(result, Err(CommandError::Transport));
    assert!(!context.sender.processor.has_pending_answer());
}

#[test]
fn wait_reports_a_closed_channel() {
    let (tx, rx) = sync_channel::<HidppReport>(0);
    drop(tx);
    assert_eq!(wait_event_timeout(&rx, 1), Err(WaitError::Disconnected));
}

#[test]
fn wait_yields_a_buffered_report() {
    let (tx, rx) = sync_channel(1);
    let mut sender = ReportChannelSender::new(tx);
    let report = HidppReport::new(FapBuilder::new().feature_index(0x09).funcindex(0x02));
    sender.send(report.clone()).unwrap();
    assert_eq!(wait_event_timeout(&rx, 1), Ok(report));
}

#[test]
fn channel_send_hands_the_report_back_when_the_receiver_is_gone() {
    let (tx, rx) = sync_channel(1);
    drop(rx);
    let mut sender = ReportChannelSender::new(tx);
    let report = HidppReport::new(FapBuilder::new().feature_index(0x09).funcindex(0x02));
    let undelivered = sender.send(report.clone());
    assert_eq!(undelivered, Err(report));
}
