use portlets::sync_await::{provide_async_wait, Completion, WaitStep, Waiter, CHANNEL_CAPACITY};
use tokio::sync::broadcast::error::TryRecvError;

#[test]
fn fresh_gate_is_pending_and_has_no_subscriber() {
    let gate = provide_async_wait();
    assert!(!gate.is_resolved());
    assert_eq!(gate.count(), 0);
    assert_eq!(CHANNEL_CAPACITY, 1);
}

#[test]
fn wait_before_complete_suspends_until_complete() {
    let mut gate = provide_async_wait();
    let step = Waiter::maybe(Some(&gate)).subscribe().wait();
    let mut receiver = match step {
        WaitStep::Suspend(receiver) => receiver,
        WaitStep::Ready => panic!("a pending gate must suspend its waiter"),
    };
    assert!(matches!(receiver.try_recv(), Err(TryRecvError::Empty)));
    assert_eq!(gate.complete(), Completion::Notified(1));
    assert!(receiver.try_recv().is_ok());
}

#[test]
fn wait_after_complete_is_ready_at_once() {
    let mut gate = provide_async_wait();
    gate.complete();
    let step = Waiter::maybe(Some(&gate)).subscribe().wait();
    assert!(matches!(step, WaitStep::Ready));
    assert_eq!(gate.count(), 0);
}

#[test]
fn wait_without_a_gate_is_ready_at_once() {
    let absent = Waiter::maybe(None);
    assert!(!absent.is_some());
    let handle = absent.subscribe();
    assert!(!handle.is_bound());
    assert!(matches!(handle.wait(), WaitStep::Ready));
}

#[test]
fn handle_of_a_gate_is_bound() {
    let gate = provide_async_wait();
    let found = Waiter::maybe(Some(&gate));
    assert!(found.is_some());
    let handle = found.subscribe();
    assert!(handle.is_bound());
    assert_eq!(gate.count(), 1);
    drop(handle);
    assert_eq!(gate.count(), 0);
}

#[test]
fn one_complete_releases_every_waiter() {
    let mut gate = provide_async_wait();
    let mut suspended = Vec::new();
    for _ in 0..5 {
        match Waiter::maybe(Some(&gate)).subscribe().wait() {
            WaitStep::Suspend(receiver) => suspended.push(receiver),
            WaitStep::Ready => panic!("a pending gate must suspend its waiter"),
        }
    }
    assert_eq!(gate.count(), 5);
    assert_eq!(gate.complete(), Completion::Notified(5));
    for receiver in suspended.iter_mut() {
        assert!(receiver.try_recv().is_ok());
        assert!(matches!(receiver.try_recv(), Err(TryRecvError::Empty)));
    }
    for _ in 0..3 {
        let late = Waiter::maybe(Some(&gate)).subscribe().wait();
        assert!(matches!(late, WaitStep::Ready));
    }
}

#[test]
fn complete_without_waiters_reports_no_subscribers() {
    let mut gate = provide_async_wait();
    assert_eq!(gate.complete(), Completion::NoSubscribers);
    assert!(gate.is_resolved());
}

#[test]
fn complete_twice_signals_once_and_stays_resolved() {
    let mut gate = provide_async_wait();
    let mut receiver = match Waiter::maybe(Some(&gate)).subscribe().wait() {
        WaitStep::Suspend(receiver) => receiver,
        WaitStep::Ready => panic!("a pending gate must suspend its waiter"),
    };
    assert_eq!(gate.complete(), Completion::Notified(1));
    assert_eq!(gate.complete(), Completion::AlreadyResolved);
    assert_eq!(gate.complete(), Completion::AlreadyResolved);
    assert!(gate.is_resolved());
    assert!(receiver.try_recv().is_ok());
    assert!(matches!(receiver.try_recv(), Err(TryRecvError::Empty)));
}

#[test]
fn gate_never_completed_keeps_its_waiter_suspended() {
    let gate = provide_async_wait();
    let mut receiver = match Waiter::maybe(Some(&gate)).subscribe().wait() {
        WaitStep::Suspend(receiver) => receiver,
        WaitStep::Ready => panic!("a pending gate must suspend its waiter"),
    };
    for _ in 0..3 {
        assert!(matches!(receiver.try_recv(), Err(TryRecvError::Empty)));
    }
    assert!(!gate.is_resolved());
}

#[test]
fn completion_from_broadcast_names_the_receivers() {
    assert_eq!(Completion::from_broadcast(Some(3)), Completion::Notified(3));
    assert_eq!(Completion::from_broadcast(Some(1)), Completion::Notified(1));
    assert_eq!(Completion::from_broadcast(None), Completion::NoSubscribers);
}

#[test]
fn suspended_tasks_wake_on_complete() {
    let runtime = tokio::runtime::Builder::new_current_thread().build().unwrap();
    let woken = runtime.block_on(async {
        let mut gate = provide_async_wait();
        let mut tasks = Vec::new();
        for _ in 0..4 {
            let step = Waiter::maybe(Some(&gate)).subscribe().wait();
            tasks.push(tokio::spawn(async move {
                match step {
                    WaitStep::Ready => false,
                    WaitStep::Suspend(mut receiver) => receiver.recv().await.is_ok(),
                }
            }));
        }
        tokio::task::yield_now().await;
        assert!(tasks.iter().all(|task| !task.is_finished()));
        assert_eq!(gate.complete(), Completion::Notified(4));
        let mut woken = 0;
        for task in tasks {
            if task.await.unwrap() {
                woken += 1;
            }
        }
        woken
    });
    assert_eq!(woken, 4);
}

#[test]
fn gates_of_two_requests_do_not_touch_each_other() {
    let mut first = provide_async_wait();
    let second = provide_async_wait();
    let mut waiting_on_second = match Waiter::maybe(Some(&second)).subscribe().wait() {
        WaitStep::Suspend(receiver) => receiver,
        WaitStep::Ready => panic!("a pending gate must suspend its waiter"),
    };
    assert_eq!(first.complete(), Completion::NoSubscribers);
    assert!(first.is_resolved());
    assert!(!second.is_resolved());
    assert_eq!(second.count(), 1);
    assert!(matches!(waiting_on_second.try_recv(), Err(TryRecvError::Empty)));
    let late = Waiter::maybe(Some(&second)).subscribe().wait();
    assert!(matches!(late, WaitStep::Suspend(_)));
}

#[test]
fn dropped_waiter_is_not_counted_on_complete() {
    let mut gate = provide_async_wait();
    let kept = Waiter::maybe(Some(&gate)).subscribe().wait();
    let dropped = Waiter::maybe(Some(&gate)).subscribe().wait();
    drop(dropped);
    assert_eq!(gate.complete(), Completion::Notified(1));
    match kept {
        WaitStep::Suspend(mut receiver) => assert!(receiver.try_recv().is_ok()),
        WaitStep::Ready => panic!("a pending gate must suspend its waiter"),
    }
}
