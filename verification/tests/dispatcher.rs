use stageflow::{DestinationDown, Dispatcher, DispatcherType, Status};

#[test]
fn construction_rejects_duplicate_destinations() {
    let (tx, _rx) = tokio::sync::mpsc::channel::<Vec<u64>>(4);
    let r = Dispatcher::new(vec![tx.clone(), tx], DispatcherType::RoundRobin);
    assert!(matches!(r, Err(Status::SendersRepetitive)));
}

#[test]
fn construction_accepts_distinct_destinations() {
    let (tx1, _rx1) = tokio::sync::mpsc::channel::<Vec<u64>>(4);
    let (tx2, _rx2) = tokio::sync::mpsc::channel::<Vec<u64>>(4);
    let r = Dispatcher::new(vec![tx1, tx2], DispatcherType::Broadcast);
    assert!(r.is_ok());
}

#[test]
fn construction_accepts_empty_destination_list() {
    let r = Dispatcher::<u64>::new(Vec::new(), DispatcherType::RoundRobin);
    assert!(r.is_ok());
}

#[test]
fn round_robin_visits_destinations_cyclically() {
    let (tx0, mut rx0) = tokio::sync::mpsc::channel::<Vec<u64>>(8);
    let (tx1, mut rx1) = tokio::sync::mpsc::channel::<Vec<u64>>(8);
    let (tx2, mut rx2) = tokio::sync::mpsc::channel::<Vec<u64>>(8);
    let mut d = Dispatcher::new(vec![tx0, tx1, tx2], DispatcherType::RoundRobin).unwrap();
    for i in 0..6u64 {
        assert!(d.dispatch(vec![i]).is_ok());
    }
    assert_eq!(rx0.try_recv().unwrap(), vec![0]);
    assert_eq!(rx1.try_recv().unwrap(), vec![1]);
    assert_eq!(rx2.try_recv().unwrap(), vec![2]);
    assert_eq!(rx0.try_recv().unwrap(), vec![3]);
    assert_eq!(rx1.try_recv().unwrap(), vec![4]);
    assert_eq!(rx2.try_recv().unwrap(), vec![5]);
    assert!(rx0.try_recv().is_err());
    assert!(rx1.try_recv().is_err());
    assert!(rx2.try_recv().is_err());
}

#[test]
fn round_robin_evicts_closed_destination() {
    let (tx0, mut rx0) = tokio::sync::mpsc::channel::<Vec<u64>>(8);
    let (tx1, rx1) = tokio::sync::mpsc::channel::<Vec<u64>>(8);
    let (tx2, mut rx2) = tokio::sync::mpsc::channel::<Vec<u64>>(8);
    drop(rx1);
    let mut d = Dispatcher::new(vec![tx0, tx1, tx2], DispatcherType::RoundRobin).unwrap();
    for i in 0..4u64 {
        assert!(d.dispatch(vec![i]).is_ok());
    }
    // The batch addressed to the dead destination lands on the next alive
    // one in cyclic order, and the dead one is never selected again.
    assert_eq!(rx0.try_recv().unwrap(), vec![0]);
    assert_eq!(rx0.try_recv().unwrap(), vec![2]);
    assert_eq!(rx2.try_recv().unwrap(), vec![1]);
    assert_eq!(rx2.try_recv().unwrap(), vec![3]);
    assert!(rx0.try_recv().is_err());
    assert!(rx2.try_recv().is_err());
}

#[test]
fn round_robin_returns_batch_when_all_destinations_down() {
    let (tx0, rx0) = tokio::sync::mpsc::channel::<Vec<u64>>(4);
    let (tx1, rx1) = tokio::sync::mpsc::channel::<Vec<u64>>(4);
    drop(rx0);
    drop(rx1);
    let mut d = Dispatcher::new(vec![tx0, tx1], DispatcherType::RoundRobin).unwrap();
    match d.dispatch(vec![7, 8, 9]) {
        Err(DestinationDown(batch)) => assert_eq!(batch, vec![7, 8, 9]),
        Ok(()) => panic!("dispatch succeeded with every destination closed"),
    }
}

#[test]
fn broadcast_delivers_copy_to_every_destination() {
    let (tx0, mut rx0) = tokio::sync::mpsc::channel::<Vec<u64>>(4);
    let (tx1, mut rx1) = tokio::sync::mpsc::channel::<Vec<u64>>(4);
    let (tx2, mut rx2) = tokio::sync::mpsc::channel::<Vec<u64>>(4);
    let mut d = Dispatcher::new(vec![tx0, tx1, tx2], DispatcherType::Broadcast).unwrap();
    assert!(d.dispatch(vec![1, 2]).is_ok());
    assert_eq!(rx0.try_recv().unwrap(), vec![1, 2]);
    assert_eq!(rx1.try_recv().unwrap(), vec![1, 2]);
    assert_eq!(rx2.try_recv().unwrap(), vec![1, 2]);
    assert!(rx0.try_recv().is_err());
    assert!(rx1.try_recv().is_err());
    assert!(rx2.try_recv().is_err());
}

#[test]
fn broadcast_skips_dead_destination_silently() {
    let (tx0, mut rx0) = tokio::sync::mpsc::channel::<Vec<u64>>(4);
    let (tx1, rx1) = tokio::sync::mpsc::channel::<Vec<u64>>(4);
    let (tx2, mut rx2) = tokio::sync::mpsc::channel::<Vec<u64>>(4);
    drop(rx1);
    let mut d = Dispatcher::new(vec![tx0, tx1, tx2], DispatcherType::Broadcast).unwrap();
    assert!(d.dispatch(vec![5]).is_ok());
    assert!(d.dispatch(vec![6]).is_ok());
    assert_eq!(rx0.try_recv().unwrap(), vec![5]);
    assert_eq!(rx0.try_recv().unwrap(), vec![6]);
    assert_eq!(rx2.try_recv().unwrap(), vec![5]);
    assert_eq!(rx2.try_recv().unwrap(), vec![6]);
}

#[test]
fn mailbox_buffers_at_most_capacity() {
    let (tx, mut rx) = tokio::sync::mpsc::channel::<Vec<u64>>(2);
    let probe = tx.clone();
    let mut d = Dispatcher::new(vec![tx], DispatcherType::RoundRobin).unwrap();
    assert!(d.dispatch(vec![1]).is_ok());
    assert!(d.dispatch(vec![2]).is_ok());
    // The mailbox holds exactly its configured capacity: a further send
    // cannot be accepted without the reader making room.
    assert!(probe.try_send(vec![99]).is_err());
    // A dispatch beyond capacity suspends the sender until the reader makes
    // room; nothing is dropped.
    let rt = tokio::runtime::Runtime::new().unwrap();
    let pending = rt.spawn_blocking(move || d.dispatch(vec![3]).is_ok());
    assert_eq!(rx.blocking_recv().unwrap(), vec![1]);
    assert_eq!(rx.blocking_recv().unwrap(), vec![2]);
    assert_eq!(rx.blocking_recv().unwrap(), vec![3]);
    assert!(rt.block_on(pending).unwrap());
}
