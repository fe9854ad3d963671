use socketcan::timestamp::{CanTimestamps, ControlMessage, Timespec};

fn ts(sec: i64, nsec: i64) -> Timespec {
    Timespec { tv_sec: sec, tv_nsec: nsec }
}

#[test]
fn control_messages_fill_the_timestamps() {
    let zero = ts(0, 0);
    let msgs = [
        ControlMessage::TimestampNs(ts(10, 5)),
        ControlMessage::Other,
        ControlMessage::Timestamping(ts(11, 0), zero, zero),
    ];
    let got = CanTimestamps::from_control_messages(&msgs);
    assert_eq!(got.socket, Some(ts(10, 5)));
    assert_eq!(got.sw, Some(ts(11, 0)));
    assert_eq!(got.hw, None);
}

#[test]
fn a_zero_time_was_not_taken_and_the_last_wins() {
    let msgs = [
        ControlMessage::Timestamping(ts(1, 0), ts(9, 9), ts(0, 7)),
        ControlMessage::Timestamping(ts(0, 0), ts(0, 0), ts(0, 8)),
    ];
    let got = CanTimestamps::from_control_messages(&msgs);
    assert_eq!(got.socket, None);
    assert_eq!(got.sw, Some(ts(1, 0)));
    assert_eq!(got.hw, Some(ts(0, 8)));
    assert_eq!(CanTimestamps::from_control_messages(&[]), CanTimestamps::default());
}

#[test]
fn a_timestamp_is_there_only_when_a_message_carries_it() {
    let none = CanTimestamps::from_control_messages(&[ControlMessage::Other, ControlMessage::Other]);
    assert_eq!(none, CanTimestamps { socket: None, sw: None, hw: None });
    let hw_only = CanTimestamps::from_control_messages(&[ControlMessage::Timestamping(ts(0, 0), ts(1, 1), ts(7, 8))]);
    assert_eq!(hw_only, CanTimestamps { socket: None, sw: None, hw: Some(ts(7, 8)) });
}
