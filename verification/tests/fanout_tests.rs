use grpc_multiplex::fanout::{
    attach_receiver, fanout_channel, forward_item, poll_receiver, RecvOutcome, SendOutcome,
    FANOUT_CAPACITY,
};

#[test]
fn no_receivers_items_dropped_without_blocking() {
    // A forwarder with zero attached receivers consumes a thousand items
    // without blocking and without panicking; each item is handed back.
    let (tx, rx) = fanout_channel::<u64>();
    drop(rx);
    for i in 0..1000u64 {
        match forward_item(&tx, i) {
            SendOutcome::NoReceivers(v) => assert_eq!(v, i),
            SendOutcome::Delivered(_) => panic!("no receiver was attached"),
        }
    }
    // A newly attached receiver observes only items forwarded after the
    // attachment.
    let mut rx = attach_receiver(&tx);
    match forward_item(&tx, 5000) {
        SendOutcome::Delivered(n) => assert_eq!(n, 1),
        SendOutcome::NoReceivers(_) => panic!("a receiver was attached"),
    }
    assert_eq!(poll_receiver(&mut rx), RecvOutcome::Item(5000));
    assert_eq!(poll_receiver(&mut rx), RecvOutcome::Empty);
}

#[test]
fn delivered_items_reach_every_receiver() {
    let (tx, mut rx1) = fanout_channel::<u64>();
    let mut rx2 = attach_receiver(&tx);
    match forward_item(&tx, 7) {
        SendOutcome::Delivered(n) => assert_eq!(n, 2),
        SendOutcome::NoReceivers(_) => panic!("receivers were attached"),
    }
    assert_eq!(poll_receiver(&mut rx1), RecvOutcome::Item(7));
    assert_eq!(poll_receiver(&mut rx2), RecvOutcome::Item(7));
    assert_eq!(poll_receiver(&mut rx1), RecvOutcome::Empty);
    assert_eq!(poll_receiver(&mut rx2), RecvOutcome::Empty);
}

#[test]
fn lagging_receiver_loses_oldest_items_only() {
    // A paused subscriber while the producer forwards more items than the
    // buffer holds: the producer completes, the subscriber observes a lag
    // signal and resumes with the most recent items.
    let total: u64 = 1500;
    assert!(total > FANOUT_CAPACITY as u64);
    let (tx, mut rx) = fanout_channel::<u64>();
    for i in 0..total {
        match forward_item(&tx, i) {
            SendOutcome::Delivered(n) => assert_eq!(n, 1),
            SendOutcome::NoReceivers(_) => panic!("a receiver was attached"),
        }
    }
    let lagged = match poll_receiver(&mut rx) {
        RecvOutcome::Lagged(n) => n,
        other => panic!("expected a lag signal, got {:?}", other),
    };
    assert!(lagged >= 1);
    // The receiver resumes at the oldest retained item and drains to the
    // most recent one without further loss.
    let mut expected = lagged;
    loop {
        match poll_receiver(&mut rx) {
            RecvOutcome::Item(v) => {
                assert_eq!(v, expected);
                expected += 1;
            }
            RecvOutcome::Empty => break,
            other => panic!("unexpected outcome {:?}", other),
        }
    }
    assert_eq!(expected, total);
}
