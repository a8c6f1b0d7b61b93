use execution::consumers::sync_wait;
use execution::consumers::AsyncValue;
use execution::consumers::WaitResult;
use execution::factories::just;
use execution::factories::just_error;
use execution::factories::just_stopped;
use execution::Error;

#[test]
fn test_just() {
    let res = sync_wait(just(4));
    assert_eq!(res.unwrap(), 4);
}

#[test]
fn just_value_is_value() {
    let res = sync_wait(just(11u64));
    assert!(res.is_value());
    assert!(!res.is_stopped());
}

#[test]
fn just_value_into_result() {
    let res = sync_wait(just(4u32)).into_result();
    assert_eq!(res.unwrap(), Some(4u32));
}

#[test]
fn stopped_sender_stops() {
    let res: WaitResult<u64> = sync_wait(just_stopped());
    assert!(res.is_stopped());
    assert!(!res.is_value());
    res.unwrap_stopped();
}

#[test]
fn stopped_sender_into_result() {
    let res: WaitResult<u64> = sync_wait(just_stopped());
    match res.into_result() {
        Ok(None) => {}
        _ => panic!("a stopped chain must fold to Ok(None)"),
    }
}

#[test]
fn error_sender_reports_the_error_unchanged() {
    let res: WaitResult<u64> = sync_wait(just_error(Error::new("boom".to_string())));
    assert!(!res.is_value());
    let e = res.unwrap_error();
    assert_eq!(e.message().as_str(), "boom");
}

#[test]
fn error_sender_into_result() {
    let res: WaitResult<u64> = sync_wait(just_error(Error::new("gone".to_string())));
    match res.into_result() {
        Err(e) => assert_eq!(e.message().as_str(), "gone"),
        _ => panic!("an errored chain must fold to Err"),
    }
}

#[test]
fn each_wait_observes_exactly_one_outcome() {
    let value = sync_wait(just(1u8));
    assert!(value.is_value() && !value.is_stopped());

    let stopped: WaitResult<u8> = sync_wait(just_stopped());
    assert!(stopped.is_stopped() && !stopped.is_value());

    let errored: WaitResult<u8> = sync_wait(just_error(Error::new("x".to_string())));
    assert!(!errored.is_value() && !errored.is_stopped());
    errored.unwrap_error();
}

#[test]
fn from_result_round_trip() {
    let value: WaitResult<u32> = WaitResult::from(Ok(Some(3u32)));
    assert!(value.is_value());
    assert_eq!(value.unwrap(), 3u32);

    let stopped: WaitResult<u32> = WaitResult::from(Ok(None));
    assert!(stopped.is_stopped());

    let errored: WaitResult<u32> = WaitResult::from(Err(Error::new("bad".to_string())));
    assert_eq!(errored.unwrap_error().message().as_str(), "bad");
}

#[test]
fn slot_hands_back_what_was_set() {
    let slot: AsyncValue<u64> = AsyncValue::new();
    slot.set(5);
    assert_eq!(slot.take(), 5);
}

#[test]
fn slot_carries_a_wait_result() {
    let slot: AsyncValue<WaitResult<u32>> = AsyncValue::new();
    slot.set(WaitResult::Stopped);
    slot.take().unwrap_stopped();
}

#[test]
fn error_message_is_kept() {
    let e = Error::new("out of names".to_string());
    assert_eq!(e.message().as_str(), "out of names");
}
