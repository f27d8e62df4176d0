use bevy_mod_time_travel::duration::Duration;
use bevy_mod_time_travel::timed_messages_buffer::{Reverse, TimedMessage, TimedMessagesBuffer};

fn secs(secs: u64) -> Duration {
    Duration::from_secs(secs)
}

fn msg(seconds: u64, message: u32) -> TimedMessage<u32> {
    TimedMessage {
        time: secs(seconds),
        message,
    }
}

fn contents(buf: &TimedMessagesBuffer<u32>) -> Vec<(u64, u32)> {
    buf.iter().map(|m| (m.time.as_secs(), m.message)).collect()
}

#[test]
fn push_keeps_messages_at_equal_times() {
    let mut buf = TimedMessagesBuffer::new();
    buf.push(msg(1, 10));
    buf.push(msg(1, 11));
    buf.push(msg(2, 12));
    assert_eq!(contents(&buf), vec![(1, 10), (1, 11), (2, 12)]);
    assert_eq!(buf.len(), 3);
    assert!(!buf.is_empty());
    assert_eq!(buf.first_message().unwrap().message, 10);
    assert_eq!(buf.last_message().unwrap().message, 12);
}

#[test]
fn empty_messages_buffer() {
    let buf = TimedMessagesBuffer::<u32>::with_capacity(8);
    assert!(buf.is_empty());
    assert!(buf.first_message().is_none());
    assert!(buf.last_message().is_none());
    assert!(buf.represented_range().is_none());
    assert!(!buf.time_in_range(secs(0)));
    assert!(buf.find_messages_exact(secs(0)).is_empty());
}

#[test]
fn find_messages_exact_in_order() {
    let mut buf = TimedMessagesBuffer::new();
    buf.push(msg(1, 10));
    buf.push(msg(2, 20));
    buf.push(msg(2, 21));
    buf.push(msg(3, 30));
    let found: Vec<u32> = buf.find_messages_exact(secs(2)).iter().map(|m| m.message).collect();
    assert_eq!(found, vec![20, 21]);
}

#[test]
fn represented_range_of_messages() {
    let mut buf = TimedMessagesBuffer::new();
    buf.push(msg(4, 1));
    buf.push(msg(6, 2));
    let range = buf.represented_range().unwrap();
    assert_eq!((*range.start(), *range.end()), (secs(4), secs(6)));
    assert!(buf.time_in_range(secs(4)));
    assert!(buf.time_in_range(secs(6)));
    assert!(!buf.time_in_range(secs(7)));
}

#[test]
fn rewinding_in_steps_has_no_duplicates() {
    let mut buf = TimedMessagesBuffer::new();
    for s in [5, 7, 10, 12, 15] {
        buf.push(msg(s, s as u32));
    }
    let first: Vec<u32> = buf
        .rewind_from_to_nonchronological(secs(5), secs(10))
        .iter()
        .map(|m| m.message)
        .collect();
    let second: Vec<u32> = buf
        .rewind_from_to_nonchronological(secs(10), secs(15))
        .iter()
        .map(|m| m.message)
        .collect();
    let whole: Vec<u32> = buf
        .rewind_from_to_nonchronological(secs(5), secs(15))
        .iter()
        .map(|m| m.message)
        .collect();
    assert_eq!(first, vec![7, 10]);
    assert_eq!(second, vec![12, 15]);
    assert_eq!([first, second].concat(), whole);
}

#[test]
fn rewinding_backward_excludes_start() {
    let mut buf = TimedMessagesBuffer::new();
    for s in [5, 10, 15] {
        buf.push(msg(s, s as u32));
    }
    let back: Vec<u32> = buf
        .rewind_from_to_nonchronological(secs(15), secs(5))
        .iter()
        .map(|m| m.message)
        .collect();
    assert_eq!(back, vec![5, 10]);
}

#[test]
fn insert_in_order_goes_after_equal_times() {
    let mut buf = TimedMessagesBuffer::new();
    buf.push(msg(1, 10));
    buf.push(msg(2, 20));
    buf.push(msg(3, 30));
    buf.insert_in_order(msg(2, 25));
    buf.insert_in_order(msg(0, 5));
    buf.insert_in_order(msg(9, 90));
    assert_eq!(
        contents(&buf),
        vec![(0, 5), (1, 10), (2, 20), (2, 25), (3, 30), (9, 90)]
    );
}

#[test]
fn insert_many_in_order_keeps_their_order() {
    let mut buf = TimedMessagesBuffer::new();
    buf.push(msg(1, 10));
    buf.push(msg(3, 30));
    buf.insert_many_in_order(secs(2), vec![21, 22, 23]);
    assert_eq!(
        contents(&buf),
        vec![(1, 10), (2, 21), (2, 22), (2, 23), (3, 30)]
    );
    let mut empty = TimedMessagesBuffer::new();
    empty.insert_many_in_order(secs(4), vec![1, 2]);
    assert_eq!(contents(&empty), vec![(4, 1), (4, 2)]);
}

#[test]
fn overwrite_range_replaces_messages_within() {
    let mut buf = TimedMessagesBuffer::new();
    for s in [1, 2, 3, 4, 5] {
        buf.push(msg(s, s as u32));
    }
    buf.overwrite_range(&(secs(2)..=secs(4)), vec![100, 101]);
    assert_eq!(contents(&buf), vec![(1, 1), (2, 100), (2, 101), (5, 5)]);
}

#[test]
fn delete_and_rotate_messages() {
    let mut buf = TimedMessagesBuffer::new();
    for s in [1, 2, 3, 4] {
        buf.push(msg(s, s as u32));
    }
    buf.delete_before(secs(2));
    assert_eq!(contents(&buf), vec![(2, 2), (3, 3), (4, 4)]);
    buf.delete_after(secs(3));
    assert_eq!(contents(&buf), vec![(2, 2), (3, 3)]);
    buf.rotate(secs(3), msg(3, 33));
    assert_eq!(contents(&buf), vec![(3, 3), (3, 33)]);
    let copy = buf.clone();
    buf.clear();
    assert!(buf.is_empty());
    assert_eq!(copy.inner().len(), 2);
    assert_eq!((&copy).into_iter().count(), 2);
}

#[test]
fn message_wrappers_deref() {
    let mut m = msg(1, 7);
    assert_eq!(*m, 7);
    *m.as_mut() = 8;
    assert_eq!(*m.as_ref(), 8);
    let mut r = Reverse(3u32);
    *r = 4;
    assert_eq!(*r.as_ref(), 4);
    *r.as_mut() += 1;
    assert_eq!(r, Reverse(5));
    assert_eq!(m.clone().time, secs(1));
}

#[test]
fn rewinding_backward_in_steps_matches_whole() {
    let mut buf = TimedMessagesBuffer::new();
    for s in [5, 10, 15] {
        buf.push(msg(s, s as u32));
    }
    let collect = |from: u64, to: u64| -> Vec<u32> {
        buf.rewind_from_to_nonchronological(secs(from), secs(to))
            .iter()
            .map(|m| m.message)
            .collect()
    };
    let first = collect(15, 10);
    let second = collect(10, 5);
    assert_eq!(first, vec![10]);
    assert_eq!(second, vec![5]);
    assert_eq!([second, first].concat(), collect(15, 5));
}
