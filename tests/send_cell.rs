use nng_bridge::{Progress, SendCell};

#[test]
fn new_cell_is_ready() {
    let mut c: SendCell<u32, i32> = SendCell::new();
    assert!(c.handle.is_none());
    assert_eq!(c.poll_ready(1), Progress::Ready(Ok(())));
    assert_eq!(c.outcome, Progress::Pending);
    assert_eq!(c.handle, Some(1));
}

#[test]
fn flush_after_submit_reports_earlier_send_not_the_new_one() {
    let mut c: SendCell<u32, i32> = SendCell::new();
    // first item: submitted, completed by the transport, flushed
    assert_eq!(c.poll_ready(1), Progress::Ready(Ok(())));
    assert_eq!(c.complete(Ok(())), Some(1));
    assert_eq!(c.poll_flush(1), Progress::Ready(Ok(())));
    // second item submitted; readiness check before its flush
    assert_eq!(c.poll_ready(1), Progress::Ready(Ok(())));
    assert_eq!(c.poll_flush(1), Progress::Pending);
    // the second send's own outcome comes later
    assert_eq!(c.complete(Err(7)), Some(1));
    assert_eq!(c.poll_flush(1), Progress::Ready(Err(7)));
}

#[test]
fn connection_error_surfaces_on_flush_then_once_on_readiness() {
    let mut c: SendCell<u32, i32> = SendCell::new();
    assert_eq!(c.poll_ready(1), Progress::Ready(Ok(())));
    assert_eq!(c.complete(Err(-104)), Some(1));
    assert_eq!(c.poll_flush(2), Progress::Ready(Err(-104)));
    assert_eq!(c.poll_ready(2), Progress::Ready(Err(-104)));
    // the cell is clear for the next submission
    assert_eq!(c.poll_ready(2), Progress::Pending);
    assert_eq!(c.complete(Ok(())), Some(2));
    assert_eq!(c.poll_flush(2), Progress::Ready(Ok(())));
}

#[test]
fn cycles_report_outcomes_in_submission_order() {
    let outcomes: Vec<Result<(), i32>> = vec![Ok(()), Err(1), Ok(()), Err(2), Err(3), Ok(())];
    let mut c: SendCell<u32, i32> = SendCell::new();
    let mut prev: Result<(), i32> = Ok(());
    for (i, r) in outcomes.iter().enumerate() {
        let h = i as u32;
        assert_eq!(c.poll_ready(h), Progress::Ready(prev));
        assert_eq!(c.poll_flush(h), Progress::Pending);
        assert_eq!(c.complete(*r), Some(h));
        assert_eq!(c.poll_flush(h), Progress::Ready(*r));
        prev = *r;
    }
    assert_eq!(c.poll_ready(99), Progress::Ready(prev));
    assert_eq!(prev, Ok(()));
}

#[test]
fn waiting_does_not_consume_the_outcome() {
    let mut c: SendCell<u32, i32> = SendCell::new();
    assert_eq!(c.poll_ready(1), Progress::Ready(Ok(())));
    // outstanding send: repeated readiness checks keep reporting pending
    assert_eq!(c.poll_ready(1), Progress::Pending);
    assert_eq!(c.poll_ready(2), Progress::Pending);
    c.complete(Err(5));
    assert_eq!(c.poll_flush(3), Progress::Ready(Err(5)));
    assert_eq!(c.poll_flush(4), Progress::Ready(Err(5)));
    assert_eq!(c.poll_close(5), Progress::Ready(Err(5)));
    assert_eq!(c.poll_ready(6), Progress::Ready(Err(5)));
}

#[test]
fn completion_hands_out_the_latest_handle_once() {
    let mut c: SendCell<u32, i32> = SendCell::new();
    c.poll_ready(1);
    c.poll_flush(2);
    c.poll_close(3);
    assert_eq!(c.complete(Ok(())), Some(3));
    assert!(c.handle.is_none());
    assert_eq!(c.complete(Ok(())), None);
}
