use sync_backfill::maybe_undefined::MaybeUndefined;
use sync_backfill::ops::SyncManager;
use sync_backfill::protected::Protected;

#[test]
fn maybe_undefined_distinguishes_its_three_states() {
    let u: MaybeUndefined<i32> = MaybeUndefined::Undefined;
    let n: MaybeUndefined<i32> = MaybeUndefined::Null;
    let v: MaybeUndefined<i32> = MaybeUndefined::Value(5);
    assert!(u.is_undefined());
    assert!(!n.is_undefined());
    assert!(!v.is_undefined());
    let u: MaybeUndefined<i32> = MaybeUndefined::Undefined;
    let n: MaybeUndefined<i32> = MaybeUndefined::Null;
    let v: MaybeUndefined<i32> = MaybeUndefined::Value(5);
    assert!(!u.is_defined());
    assert!(n.is_defined());
    assert!(v.is_defined());
}

#[test]
fn maybe_undefined_unwrap_or_takes_the_value_or_the_default() {
    assert_eq!(MaybeUndefined::Value(5).unwrap_or(9), 5);
    assert_eq!(MaybeUndefined::<i32>::Null.unwrap_or(9), 9);
    assert_eq!(MaybeUndefined::<i32>::Undefined.unwrap_or(9), 9);
}

#[test]
fn maybe_undefined_nests_into_options() {
    assert_eq!(MaybeUndefined::<i32>::Undefined.into_nested_option(), None);
    assert_eq!(MaybeUndefined::<i32>::Null.into_nested_option(), Some(None));
    assert_eq!(MaybeUndefined::Value(5).into_nested_option(), Some(Some(5)));
}

#[test]
fn maybe_undefined_transpose_pulls_the_result_out() {
    let ok: MaybeUndefined<Result<i32, &str>> = MaybeUndefined::Value(Ok(5));
    assert_eq!(ok.transpose(), Ok(MaybeUndefined::Value(5)));
    let err: MaybeUndefined<Result<i32, &str>> = MaybeUndefined::Value(Err("bad"));
    assert_eq!(err.transpose(), Err("bad"));
    let null: MaybeUndefined<Result<i32, &str>> = MaybeUndefined::Null;
    assert_eq!(null.transpose(), Ok(MaybeUndefined::Null));
    let und: MaybeUndefined<Result<i32, &str>> = MaybeUndefined::Undefined;
    assert_eq!(und.transpose(), Ok(MaybeUndefined::Undefined));
}

#[test]
fn protected_exposes_only_on_demand() {
    let secret = Protected::new("classified".to_string());
    assert_eq!(secret.expose(), &"classified".to_string());
    assert_eq!(secret.into_inner(), "classified".to_string());
}

#[test]
fn protected_bytes_can_be_erased() {
    let secret = Protected::new(vec![1u8, 2, 3]);
    secret.zeroize();
}

#[test]
fn sync_manager_keeps_its_device_identity() {
    let sync = SyncManager::new(vec![4, 2]);
    assert_eq!(sync.device_pub_id, vec![4, 2]);
}
