use orion_async::adapter::{drive_adapter, drive_computation, Computation, PollResult, SendFuture};

#[test]
fn immediate_computation_completes_first_poll() {
    // An async body that just returns 100: one poll, output 100.
    let c = Computation::new(0, 100u64);
    let (out, polls) = drive_computation(c);
    assert_eq!(out, 100);
    assert_eq!(polls, 1);
}

#[test]
fn computation_reports_pending_then_ready() {
    let mut c = Computation::new(2, 5u32);
    assert_eq!(c.poll(), PollResult::Pending);
    assert_eq!(c.poll(), PollResult::Pending);
    assert_eq!(c.poll(), PollResult::Ready(5));
}

#[test]
fn adapter_forwards_each_poll_unchanged() {
    let mut f = SendFuture::new(Computation::new(1, 42u64));
    assert_eq!(f.poll(), PollResult::Pending);
    assert_eq!(f.poll(), PollResult::Ready(42));
}

#[test]
fn adapter_drive_matches_direct_drive() {
    // Round trip: the same computation, driven directly and through the
    // adapter, yields the same output after the same number of polls.
    let direct = drive_computation(Computation::new(3, 9i64));
    let mut f = SendFuture::new(Computation::new(3, 9i64));
    let adapted = drive_adapter(&mut f);
    assert_eq!(direct, adapted);
    assert_eq!(direct, (9, 4));
}

#[test]
fn adapter_yields_subcall_result() {
    // A wrapped body that awaits a sub-call: the adapter's result is the
    // sub-call's result.
    let mut f = SendFuture::new(Computation::new(2, 7u8));
    let (out, polls) = drive_adapter(&mut f);
    assert_eq!(out, 7);
    assert_eq!(polls, 3);
}

#[test]
fn adapter_carries_any_output_type() {
    let mut f = SendFuture::new(Computation::new(0, "done".to_owned()));
    let (out, polls) = drive_adapter(&mut f);
    assert_eq!(out, "done");
    assert_eq!(polls, 1);
}
