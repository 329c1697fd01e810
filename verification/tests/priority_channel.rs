use transcode_rs::priority_channel::{
    priority_channel, RecvError, SendError, StreamStep, TryRecvError,
};

#[test]
fn messages_come_by_priority() {
    let (mut inner, sender, receiver) = priority_channel();
    assert_eq!(sender.send(&mut inner, 1, 10), Ok(()));
    assert_eq!(sender.send(&mut inner, 2, 30), Ok(()));
    assert_eq!(sender.send(&mut inner, 3, 20), Ok(()));
    assert_eq!(receiver.try_recv(&mut inner), Ok((2, 30)));
    assert_eq!(sender.send(&mut inner, 4, 25), Ok(()));
    assert_eq!(receiver.try_recv(&mut inner), Ok((4, 25)));
    assert_eq!(receiver.try_recv(&mut inner), Ok((3, 20)));
    assert_eq!(receiver.try_recv(&mut inner), Ok((1, 10)));
    assert_eq!(receiver.try_recv(&mut inner), Err(TryRecvError::Empty));
}

#[test]
fn receiver_waits_on_an_open_channel() {
    let (mut inner, sender, receiver) = priority_channel();
    assert!(!inner.wakes_receiver());
    assert_eq!(receiver.recv(&mut inner), Ok(None));
    sender.send(&mut inner, 7, 1).unwrap();
    assert!(inner.wakes_receiver());
    assert_eq!(receiver.recv(&mut inner), Ok(Some((7, 1))));
    inner.close();
    assert!(inner.wakes_receiver());
    assert_eq!(receiver.recv(&mut inner), Err(RecvError::ClosedAndEmpty));
}

#[test]
fn closed_channel_hands_messages_back() {
    let (mut inner, sender, receiver) = priority_channel();
    sender.send(&mut inner, 1, 10).unwrap();
    assert!(!inner.is_closed());
    assert!(inner.close());
    assert!(!inner.close());
    assert!(inner.is_closed());
    assert_eq!(sender.send(&mut inner, 2, 20), Err(SendError::Closed(2)));
    assert!(!inner.is_empty());
    assert_eq!(receiver.try_recv(&mut inner), Ok((1, 10)));
    assert!(inner.is_empty());
    assert_eq!(
        receiver.try_recv(&mut inner),
        Err(TryRecvError::ClosedAndEmpty)
    );
}

#[test]
fn last_sender_closes_the_channel() {
    let (mut inner, sender, _receiver) = priority_channel();
    let other = sender.clone(&mut inner);
    sender.drop(&mut inner);
    assert!(!inner.is_closed());
    assert_eq!(other.send(&mut inner, 1, 1), Ok(()));
    other.drop(&mut inner);
    assert!(inner.is_closed());
}

#[test]
fn receiver_closes_the_channel() {
    let (mut inner, sender, receiver) = priority_channel();
    receiver.drop(&mut inner);
    assert!(inner.is_closed());
    assert_eq!(sender.send(&mut inner, 5, 5), Err(SendError::Closed(5)));
}

#[test]
fn message_sent_again_waits_once() {
    let (mut inner, sender, receiver) = priority_channel();
    sender.send(&mut inner, 1, 10).unwrap();
    sender.send(&mut inner, 2, 20).unwrap();
    sender.send(&mut inner, 1, 30).unwrap();
    assert_eq!(receiver.try_recv(&mut inner), Ok((1, 30)));
    assert_eq!(receiver.try_recv(&mut inner), Ok((2, 20)));
    assert!(inner.is_empty());
    assert_eq!(receiver.try_recv(&mut inner), Err(TryRecvError::Empty));
}

#[test]
fn lowered_priority_counts() {
    let (mut inner, sender, receiver) = priority_channel();
    sender.send(&mut inner, 1, 30).unwrap();
    sender.send(&mut inner, 2, 20).unwrap();
    sender.send(&mut inner, 1, 10).unwrap();
    assert_eq!(receiver.try_recv(&mut inner), Ok((2, 20)));
    assert_eq!(receiver.try_recv(&mut inner), Ok((1, 10)));
}

#[test]
fn closed_channel_is_drained_by_priority() {
    let (mut inner, sender, receiver) = priority_channel();
    for (msg, prio) in [(1, 5), (2, 9), (3, 7), (4, 9), (5, 0)] {
        sender.send(&mut inner, msg, prio).unwrap();
    }
    sender.drop(&mut inner);
    let mut stream = receiver.into_stream();
    let mut messages: Vec<(u64, u64)> = Vec::new();
    loop {
        match stream.next(&mut inner) {
            StreamStep::Item(msg, prio, rest) => {
                messages.push((msg, prio));
                stream = rest;
            }
            StreamStep::Wait(_) => panic!("a closed channel does not make a stream wait"),
            StreamStep::End => break,
        }
    }
    let priorities: Vec<u64> = messages.iter().map(|message| message.1).collect();
    assert_eq!(priorities, [9, 9, 7, 5, 0]);
    let mut numbers: Vec<u64> = messages.iter().map(|message| message.0).collect();
    numbers.sort();
    assert_eq!(numbers, [1, 2, 3, 4, 5]);
    assert!(inner.is_empty());
    assert!(inner.is_closed());
}

#[test]
fn stream_of_an_open_channel_waits() {
    let (mut inner, sender, receiver) = priority_channel();
    let stream = receiver.into_stream();
    let StreamStep::Wait(stream) = stream.next(&mut inner) else {
        panic!("nothing was sent yet");
    };
    sender.send(&mut inner, 3, 1).unwrap();
    let StreamStep::Item(3, 1, stream) = stream.next(&mut inner) else {
        panic!("a message was sent");
    };
    let StreamStep::Wait(stream) = stream.next(&mut inner) else {
        panic!("the message was received");
    };
    sender.drop(&mut inner);
    assert!(matches!(stream.next(&mut inner), StreamStep::End));
}

#[test]
fn new_channel_has_room() {
    let (inner, _sender, _receiver) = priority_channel();
    assert!(inner.takes_sender());
    assert!(inner.takes_message());
    assert!(inner.is_empty());
}
