use fable_async::outcome::{
    catch_outcome, child_outcome, continuation_route, get_ex, ContinuationResult,
    ContinuationSlot, Exception, OperationCanceledException, PanicPayload, TimeoutException,
};

#[test]
fn get_ex_maps_payloads() {
    assert_eq!(get_ex(PanicPayload::Message("boom".to_string())).message, "boom");
    let ex = Exception::new("inner".to_string());
    assert_eq!(get_ex(PanicPayload::Exception(ex.clone())), ex);
    assert_eq!(get_ex(PanicPayload::Other).message, "Unknown error");
    assert_eq!(
        get_ex(PanicPayload::Canceled(OperationCanceledException {})).message,
        "Unknown error"
    );
}

#[test]
fn route_picks_continuation() {
    assert_eq!(continuation_route::<u32>(Ok(3)), ContinuationResult::Success(3));
    assert_eq!(
        continuation_route::<u32>(Err(PanicPayload::Canceled(OperationCanceledException {}))),
        ContinuationResult::Cancel(OperationCanceledException {})
    );
    assert_eq!(
        continuation_route::<u32>(Err(PanicPayload::Message("bad".to_string()))),
        ContinuationResult::Error(Exception::new("bad".to_string()))
    );
    assert_eq!(
        continuation_route::<u32>(Err(PanicPayload::Other)),
        ContinuationResult::Error(Exception::new("Unknown error".to_string()))
    );
}

#[test]
fn catch_maps_errors() {
    assert_eq!(catch_outcome::<u32>(Ok(1)), Ok(1));
    assert_eq!(
        catch_outcome::<u32>(Err(PanicPayload::Message("x".to_string()))),
        Err(Exception::new("x".to_string()))
    );
}

#[test]
fn child_times_out() {
    assert_eq!(child_outcome(Some(4)), Ok(4));
    assert_eq!(child_outcome::<u32>(None), Err(TimeoutException {}));
}

#[test]
fn slot_keeps_last_continuation() {
    let slot: ContinuationSlot<u32> = ContinuationSlot::new();
    assert_eq!(
        slot.outcome(),
        Err(Exception::new(
            "Async.FromContinuations: no continuation called".to_string()
        ))
    );
    let mut slot: ContinuationSlot<u32> = ContinuationSlot::new();
    slot.on_success(1);
    slot.on_error(Exception::new("e".to_string()));
    assert_eq!(
        slot.outcome(),
        Ok(ContinuationResult::Error(Exception::new("e".to_string())))
    );
    let mut slot: ContinuationSlot<u32> = ContinuationSlot::new();
    slot.on_cancel(OperationCanceledException {});
    slot.on_success(2);
    assert_eq!(slot.outcome(), Ok(ContinuationResult::Success(2)));
    let mut slot: ContinuationSlot<u32> = ContinuationSlot::new();
    slot.on_cancel(OperationCanceledException {});
    assert_eq!(
        slot.outcome(),
        Ok(ContinuationResult::Cancel(OperationCanceledException {}))
    );
}
