use vitruvia::geometry::Vec2D;
use vitruvia::interaction::Action;
use vitruvia::interaction::HostWindowEvent;
use vitruvia::interaction::window_action;
use vitruvia::vessel::VesselControlPoll;
use vitruvia::vessel::VesselPoll;
use vitruvia::vessel::VesselReader;
use vitruvia::vessel::VesselWriter;
use vitruvia::vessel::_vessel_entry_construct;

#[test]
fn entry_hands_out_both_endpoints() {
    let entry = _vessel_entry_construct();
    assert_eq!(entry.reader, VesselReader);
    assert_eq!(entry.writer, VesselWriter);
}

#[test]
fn zero_reply_means_pending() {
    assert_eq!(VesselReader::resolve_read(0), VesselPoll::Pending);
    assert_eq!(VesselWriter::resolve_write(0), VesselPoll::Pending);
    assert_eq!(VesselWriter::resolve_flush(0), VesselControlPoll::Pending);
    assert_eq!(VesselWriter::resolve_close(0), VesselControlPoll::Pending);
}

#[test]
fn positive_reply_carries_count_plus_one() {
    assert_eq!(VesselReader::resolve_read(5), VesselPoll::Ready(4));
    assert_eq!(VesselReader::resolve_read(1), VesselPoll::Ready(0));
    assert_eq!(VesselWriter::resolve_write(9), VesselPoll::Ready(8));
}

#[test]
fn control_reply_one_means_done() {
    assert_eq!(VesselWriter::resolve_flush(1), VesselControlPoll::Done);
    assert_eq!(VesselWriter::resolve_close(1), VesselControlPoll::Done);
}

#[test]
fn resize_event_maps_to_resize_action() {
    assert_eq!(window_action(HostWindowEvent::Resized), Some(Action::Resize));
}

#[test]
fn move_event_carries_its_position() {
    let p = Vec2D { x: 12, y: -4 };
    assert_eq!(window_action(HostWindowEvent::Moved(p)), Some(Action::Move(p)));
}

#[test]
fn other_events_are_dropped() {
    assert_eq!(window_action(HostWindowEvent::Other), None);
}
