use can_node::frame::Frame;
use can_node::frame::FrameId;
use can_node::reply::reply_frame;
use can_node::reply::ReplyCounter;
use embedded_can::ExtendedId;
use embedded_can::Frame as BusFrame;
use embedded_can::Id;
use embedded_can::StandardId;
use mcp2515::frame::CanFrame;

fn from_bus(frame: &CanFrame) -> Option<Frame> {
    let id = match frame.id() {
        Id::Standard(id) => FrameId::Standard(id.as_raw()),
        Id::Extended(id) => FrameId::Extended(id.as_raw()),
    };
    Frame::new(id, frame.data())
}

fn to_bus(frame: &Frame) -> Option<CanFrame> {
    let id = match frame.id() {
        FrameId::Standard(raw) => Id::Standard(StandardId::new(raw)?),
        FrameId::Extended(raw) => Id::Extended(ExtendedId::new(raw)?),
    };
    CanFrame::new(id, frame.data())
}

#[test]
fn payload_limit_is_that_of_the_transceiver() {
    let bytes = [7u8; 12];
    for len in 0..=12 {
        let ours = Frame::new(FrameId::Standard(42), &bytes[..len]);
        let theirs = CanFrame::new(StandardId::new(42).unwrap(), &bytes[..len]);
        assert_eq!(ours.is_some(), theirs.is_some());
    }
}

#[test]
fn every_frame_of_the_transceiver_is_a_frame() {
    let received = CanFrame::new(StandardId::new(42).unwrap(), &[5]).unwrap();
    let frame = from_bus(&received).unwrap();
    assert_eq!(frame.id(), FrameId::Standard(42));
    assert_eq!(frame.data(), &[5u8][..]);

    let received = CanFrame::new(ExtendedId::MAX, &[1, 2, 3, 4, 5, 6, 7, 8]).unwrap();
    let frame = from_bus(&received).unwrap();
    assert_eq!(frame.id(), FrameId::Extended(0x1FFF_FFFF));
    assert_eq!(frame.data(), &[1u8, 2, 3, 4, 5, 6, 7, 8][..]);

    let received = CanFrame::new(StandardId::ZERO, &[]).unwrap();
    let frame = from_bus(&received).unwrap();
    assert_eq!(frame.id(), FrameId::Standard(0));
    assert!(frame.data().is_empty());

    let remote = CanFrame::new_remote(StandardId::MAX, 8).unwrap();
    assert!(from_bus(&remote).is_some());
}

#[test]
fn every_frame_goes_out_on_the_transceiver() {
    let frame = Frame::new(FrameId::Standard(2047), &[0; 8]).unwrap();
    let sent = to_bus(&frame).unwrap();
    assert_eq!(sent.id(), Id::Standard(StandardId::MAX));
    assert_eq!(sent.data(), &[0u8; 8][..]);
    assert_eq!(sent.dlc(), 8);
    assert!(!sent.is_remote_frame());

    let frame = Frame::new(FrameId::Extended(0x1FFF_FFFF), &[]).unwrap();
    let sent = to_bus(&frame).unwrap();
    assert_eq!(sent.id(), Id::Extended(ExtendedId::MAX));
    assert_eq!(sent.dlc(), 0);
}

#[test]
fn reply_goes_out_on_the_transceiver() {
    let received = CanFrame::new(StandardId::new(42).unwrap(), &[5]).unwrap();
    let frame = from_bus(&received).unwrap();
    let reply = reply_frame(ReplyCounter::new(200), &frame).unwrap();
    let sent = to_bus(&reply).unwrap();
    assert_eq!(sent.id(), Id::Standard(StandardId::new(200).unwrap()));
    assert_eq!(sent.data(), &[6u8][..]);
    assert!(!sent.is_extended());
}

#[test]
fn every_reply_in_range_goes_out_on_the_transceiver() {
    let frame = Frame::new(FrameId::Standard(1), &[255]).unwrap();
    for count in 0u16..=2047 {
        let reply = reply_frame(ReplyCounter::new(count), &frame).unwrap();
        let sent = to_bus(&reply).unwrap();
        assert_eq!(sent.id(), Id::Standard(StandardId::new(count).unwrap()));
        assert_eq!(sent.data(), &[0u8][..]);
    }
    assert!(reply_frame(ReplyCounter::new(2048), &frame).is_err());
    assert!(StandardId::new(2048).is_none());
}
