use fable_async::cancellation::{cancel, createCancellationToken, getToken, CancellationRegistry};
use fable_async::outcome::OperationCanceledException;
use fable_async::scope::{onCancel, CancellationScope};

#[test]
fn scope_without_token_is_never_cancelled() {
    let reg: CancellationRegistry<u32> = CancellationRegistry::new();
    let scope = CancellationScope::new();
    assert_eq!(scope.current(), None);
    assert!(!scope.current_cancellation_requested(&reg));
    assert_eq!(scope.throw_if_canceled(&reg), Ok(()));
}

#[test]
fn scope_follows_its_token() {
    let mut reg: CancellationRegistry<u32> = CancellationRegistry::new();
    let s = createCancellationToken(&mut reg);
    let mut scope = CancellationScope::new();
    scope.enter_cancellation_scope(Some(getToken(s)));
    assert!(!scope.current_cancellation_requested(&reg));
    cancel(&mut reg, s);
    assert!(scope.current_cancellation_requested(&reg));
    assert_eq!(
        scope.throw_if_canceled(&reg),
        Err(OperationCanceledException {})
    );
    scope.leave();
    assert_eq!(scope.current(), None);
    assert!(!scope.current_cancellation_requested(&reg));
}

#[test]
fn on_cancel_registers_on_scope_token() {
    let mut reg: CancellationRegistry<u32> = CancellationRegistry::new();
    let s = createCancellationToken(&mut reg);
    let mut scope = CancellationScope::new();
    scope.enter_cancellation_scope(Some(getToken(s)));
    let (registration, now) = onCancel(&scope, &mut reg, 4);
    assert_eq!(registration.token, getToken(s));
    assert_eq!(now, None);
    assert_eq!(cancel(&mut reg, s), vec![4]);
}

#[test]
fn on_cancel_without_token_uses_fresh_source() {
    let mut reg: CancellationRegistry<u32> = CancellationRegistry::new();
    let s = createCancellationToken(&mut reg);
    let scope = CancellationScope::new();
    let (registration, now) = onCancel(&scope, &mut reg, 4);
    assert_eq!(now, None);
    assert_ne!(registration.token, getToken(s));
    assert!(reg.contains_token(registration.token));
    assert!(!registration.token.is_cancellation_requested(&reg));
    assert_eq!(cancel(&mut reg, s), Vec::<u32>::new());
}

#[test]
fn on_cancel_on_cancelled_token_runs_now() {
    let mut reg: CancellationRegistry<u32> = CancellationRegistry::new();
    let s = createCancellationToken(&mut reg);
    cancel(&mut reg, s);
    let mut scope = CancellationScope::new();
    scope.enter_cancellation_scope(Some(getToken(s)));
    let (_, now) = onCancel(&scope, &mut reg, 8);
    assert_eq!(now, Some(8));
}
