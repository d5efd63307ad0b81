use rocket_os::config::{
    CONTROL_LOOP_RATE_MS, NAV_LOOP_RATE_MS, SIM_TICK_RATE_MS, TELEMETRY_LOOP_RATE_MS,
};
use rocket_os::error::{HalError, RocketError};
use rocket_os::kernel::sync::{
    get_time, Channel, ChannelReceiver, ChannelSender, Mutex, Polled,
};
use rocket_os::kernel::task::{join_result, pace, Pacing, TaskEnd};

fn kernel_fault(text: &str) -> RocketError {
    RocketError::Kernel(text.to_string())
}

#[test]
fn mutex_hands_out_the_value() {
    let shared = Mutex::new(41u32);
    {
        let mut guard = shared.lock().unwrap();
        *guard += 1;
    }
    assert_eq!(*shared.lock().unwrap(), 42);
}

#[test]
fn mutex_clone_shares_the_value() {
    let shared = Mutex::new(vec![1u8]);
    let other = shared.clone();
    other.lock().unwrap().push(2);
    assert_eq!(*shared.lock().unwrap(), vec![1, 2]);
}

#[test]
fn mutex_lock_can_be_taken_again_after_release() {
    let shared = Mutex::new(0u8);
    for step in 1..=10u8 {
        let mut guard = shared.lock().unwrap();
        *guard = step;
    }
    assert_eq!(*shared.lock().unwrap(), 10);
}

#[test]
fn clock_does_not_run_backwards() {
    let first = get_time();
    let second = get_time();
    assert!(second >= first);
}

#[test]
fn empty_channel_has_no_value() {
    let (_tx, rx) = Channel::<u32>::new().split();
    assert_eq!(rx.try_recv(), Ok(None));
    assert_eq!(rx.try_recv(), Ok(None));
}

#[test]
fn value_sent_is_received_exactly_once() {
    let (tx, rx) = Channel::new().split();
    assert_eq!(tx.send(5u32), Ok(()));
    assert_eq!(rx.try_recv(), Ok(Some(5)));
    assert_eq!(rx.try_recv(), Ok(None));
}

#[test]
fn channel_keeps_the_order_of_sending() {
    let (tx, rx) = Channel::new().split();
    for value in 0..100u32 {
        assert_eq!(tx.send(value), Ok(()));
    }
    for value in 0..50u32 {
        assert_eq!(rx.recv(), Ok(value));
    }
    for value in 50..100u32 {
        assert_eq!(rx.try_recv(), Ok(Some(value)));
    }
    assert_eq!(rx.try_recv(), Ok(None));
}

#[test]
fn blocking_receive_reports_a_dropped_sender() {
    let (tx, rx) = Channel::<u32>::new().split();
    drop(tx);
    assert_eq!(
        rx.recv(),
        Err(kernel_fault("Channel receive error: receiving on a closed channel"))
    );
}

#[test]
fn polling_reports_a_dropped_sender() {
    let (tx, rx) = Channel::<u32>::new().split();
    drop(tx);
    assert_eq!(rx.try_recv(), Err(kernel_fault("Channel disconnected")));
}

#[test]
fn values_sent_before_the_drop_are_still_received() {
    let (tx, rx) = Channel::new().split();
    assert_eq!(tx.send(1u8), Ok(()));
    assert_eq!(tx.send(2u8), Ok(()));
    drop(tx);
    assert_eq!(rx.recv(), Ok(1));
    assert_eq!(rx.try_recv(), Ok(Some(2)));
    assert_eq!(rx.try_recv(), Err(kernel_fault("Channel disconnected")));
    assert!(rx.recv().is_err());
}

#[test]
fn send_reports_a_dropped_receiver() {
    let (tx, rx) = Channel::new().split();
    drop(rx);
    assert_eq!(
        tx.send(1u8),
        Err(kernel_fault("Channel send error: sending on a closed channel"))
    );
}

#[test]
fn cloned_sender_keeps_the_channel_open() {
    let (tx, rx) = Channel::new().split();
    let second = tx.clone();
    drop(tx);
    assert_eq!(rx.try_recv(), Ok(None));
    assert_eq!(second.send(9u8), Ok(()));
    assert_eq!(rx.recv(), Ok(9));
    drop(second);
    assert_eq!(rx.try_recv(), Err(kernel_fault("Channel disconnected")));
}

#[test]
fn send_outcome_wraps_the_channel_text() {
    assert_eq!(ChannelSender::<u8>::send_outcome(Ok(())), Ok(()));
    assert_eq!(
        ChannelSender::<u8>::send_outcome(Err("gone".to_string())),
        Err(kernel_fault("Channel send error: gone"))
    );
}

#[test]
fn recv_outcome_wraps_the_channel_text() {
    assert_eq!(ChannelReceiver::<u8>::recv_outcome(Ok(3)), Ok(3));
    assert_eq!(
        ChannelReceiver::<u8>::recv_outcome(Err("gone".to_string())),
        Err(kernel_fault("Channel receive error: gone"))
    );
}

#[test]
fn poll_outcome_tells_empty_from_disconnected() {
    assert_eq!(ChannelReceiver::poll_outcome(Polled::Value(3u8)), Ok(Some(3)));
    assert_eq!(ChannelReceiver::<u8>::poll_outcome(Polled::Empty), Ok(None));
    assert_eq!(
        ChannelReceiver::<u8>::poll_outcome(Polled::Disconnected),
        Err(kernel_fault("Channel disconnected"))
    );
}

#[test]
fn joined_task_hands_back_its_own_result() {
    assert_eq!(join_result(TaskEnd::Returned(Ok(()))), Ok(()));
    let fault = RocketError::Hal(HalError::UnexpectedDevice);
    assert_eq!(join_result(TaskEnd::Returned(Err(fault.clone()))), Err(fault));
}

#[test]
fn joined_task_that_panicked_is_a_runtime_fault() {
    assert_eq!(join_result(TaskEnd::Panicked), Err(kernel_fault("Task panicked")));
}

#[test]
fn quick_work_waits_for_the_rest_of_the_period() {
    assert_eq!(pace(50, 0), Pacing::Wait(50));
    assert_eq!(pace(50, 20), Pacing::Wait(30));
    assert_eq!(pace(50, 49), Pacing::Wait(1));
    assert_eq!(pace(u64::MAX, 1), Pacing::Wait(u64::MAX - 1));
}

#[test]
fn overrun_waits_not_at_all() {
    assert_eq!(pace(50, 50), Pacing::Overrun);
    assert_eq!(pace(50, 51), Pacing::Overrun);
    assert_eq!(pace(50, u64::MAX), Pacing::Overrun);
    assert_eq!(pace(0, 0), Pacing::Overrun);
}

#[test]
fn task_periods_are_as_configured() {
    assert_eq!(SIM_TICK_RATE_MS, 10);
    assert_eq!(NAV_LOOP_RATE_MS, 50);
    assert_eq!(CONTROL_LOOP_RATE_MS, 20);
    assert_eq!(TELEMETRY_LOOP_RATE_MS, 200);
    assert_eq!(pace(NAV_LOOP_RATE_MS, 60), Pacing::Overrun);
    assert_eq!(pace(TELEMETRY_LOOP_RATE_MS, 60), Pacing::Wait(140));
}
