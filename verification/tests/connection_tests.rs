use grpc_multiplex::config::CommitmentLevel;
use grpc_multiplex::connection::{
    connection_step, required_action, ConnectionAction, ConnectionEvent, ConnectionState,
    StepResult,
};
use grpc_multiplex::extract::ExtractBlock;
use grpc_multiplex::filter::filter_step;
use grpc_multiplex::update::{BlockUpdate, Update};

fn block(slot: u64) -> Update {
    Update::Block(BlockUpdate { slot, payload: 0 })
}

/// Drives the machine over a sequence of events and returns the final
/// state, the yielded items, and how many connect tasks were spawned.
fn drive(events: &[ConnectionEvent]) -> (ConnectionState, Vec<Option<Update>>, usize) {
    let mut state = ConnectionState::NotConnected;
    let mut yielded = Vec::new();
    let mut spawns = 0usize;
    for &event in events {
        if event == ConnectionEvent::TaskSpawned {
            spawns += 1;
        }
        match connection_step(state, event) {
            StepResult::Continue(next, item) => {
                state = next;
                yielded.push(item);
            }
            StepResult::Fatal => panic!("task fault"),
        }
    }
    (state, yielded, spawns)
}

#[test]
fn transition_table_rows() {
    assert_eq!(
        connection_step(ConnectionState::NotConnected, ConnectionEvent::TaskSpawned),
        StepResult::Continue(ConnectionState::Connecting, None)
    );
    assert_eq!(
        connection_step(ConnectionState::Connecting, ConnectionEvent::SubscribeOk),
        StepResult::Continue(ConnectionState::Ready, None)
    );
    assert_eq!(
        connection_step(ConnectionState::Connecting, ConnectionEvent::SubscribeFailed),
        StepResult::Continue(ConnectionState::WaitReconnect, None)
    );
    assert_eq!(connection_step(ConnectionState::Connecting, ConnectionEvent::TaskFault), StepResult::Fatal);
    let u = block(9);
    assert_eq!(
        connection_step(ConnectionState::Ready, ConnectionEvent::Received(u)),
        StepResult::Continue(ConnectionState::Ready, Some(u))
    );
    assert_eq!(
        connection_step(ConnectionState::Ready, ConnectionEvent::ReceiveFailed),
        StepResult::Continue(ConnectionState::WaitReconnect, None)
    );
    assert_eq!(
        connection_step(ConnectionState::Ready, ConnectionEvent::StreamClosed),
        StepResult::Continue(ConnectionState::WaitReconnect, None)
    );
    assert_eq!(
        connection_step(ConnectionState::WaitReconnect, ConnectionEvent::BackoffElapsed),
        StepResult::Continue(ConnectionState::NotConnected, None)
    );
}

#[test]
fn actions_per_state() {
    assert_eq!(
        required_action(ConnectionState::NotConnected),
        ConnectionAction::SpawnConnect
    );
    assert_eq!(
        required_action(ConnectionState::Connecting),
        ConnectionAction::AwaitTask
    );
    assert_eq!(
        required_action(ConnectionState::Ready),
        ConnectionAction::PollStream
    );
    assert_eq!(
        required_action(ConnectionState::WaitReconnect),
        ConnectionAction::SleepBackoff
    );
}

#[test]
fn reconnect_on_stream_error() {
    // A single source delivers 500, hits a stream error, reconnects after
    // the backoff, and delivers 501 and 502.
    let events = [
        ConnectionEvent::TaskSpawned,
        ConnectionEvent::SubscribeOk,
        ConnectionEvent::Received(block(500)),
        ConnectionEvent::ReceiveFailed,
        ConnectionEvent::BackoffElapsed,
        ConnectionEvent::TaskSpawned,
        ConnectionEvent::SubscribeOk,
        ConnectionEvent::Received(block(501)),
        ConnectionEvent::Received(block(502)),
    ];
    let (state, yielded, spawns) = drive(&events);
    assert_eq!(state, ConnectionState::Ready);
    // Exactly two subscriptions were attempted, separated by the backoff.
    assert_eq!(spawns, 2);
    // The merged-and-filtered output sees 500, 501, 502.
    let extractor = ExtractBlock(CommitmentLevel::Confirmed);
    let mut current_slot: u64 = 0;
    let mut slots = Vec::new();
    for item in yielded {
        if let Some(b) = filter_step(&extractor, &mut current_slot, item) {
            slots.push(b.slot);
        }
    }
    assert_eq!(slots, vec![500, 501, 502]);
}

#[test]
fn reconnect_on_stream_close() {
    let events = [ConnectionEvent::TaskSpawned, ConnectionEvent::SubscribeOk, ConnectionEvent::StreamClosed];
    let (state, yielded, _) = drive(&events);
    assert_eq!(state, ConnectionState::WaitReconnect);
    assert!(yielded.iter().all(|y| y.is_none()));
}

#[test]
fn retries_indefinitely_until_healed() {
    // Fifty failed connect attempts in a row, then a healthy one: the
    // source still comes up.
    let mut events = Vec::new();
    for _ in 0..50 {
        events.push(ConnectionEvent::TaskSpawned);
        events.push(ConnectionEvent::SubscribeFailed);
        events.push(ConnectionEvent::BackoffElapsed);
    }
    events.push(ConnectionEvent::TaskSpawned);
    events.push(ConnectionEvent::SubscribeOk);
    events.push(ConnectionEvent::Received(block(1)));
    let (state, yielded, spawns) = drive(&events);
    assert_eq!(state, ConnectionState::Ready);
    assert_eq!(spawns, 51);
    assert_eq!(yielded.last().unwrap(), &Some(block(1)));
}
