//! End-to-end tests of the adapter over the real engine and codec.

use crdt_list_adapter::errors::ListError;
use crdt_list_adapter::list::List;
use crdt_list_adapter::marshal::{engine_to_host, host_to_engine};
use crdt_list_adapter::values::HostValue;

fn host_str(x: &str) -> HostValue {
    HostValue::Str(x.to_string())
}

fn host_num(x: f64) -> HostValue {
    HostValue::Num(format!("{}", x))
}

fn host_bool(b: bool) -> HostValue {
    HostValue::Bool(b)
}

fn host_obj() -> HostValue {
    HostValue::Other { kind: "object".to_string(), dump: "[object Object]".to_string() }
}

fn same_host(a: &HostValue, b: &HostValue) -> bool {
    match (a, b) {
        (HostValue::Str(x), HostValue::Str(y)) => x == y,
        (HostValue::Num(x), HostValue::Num(y)) => x == y,
        (HostValue::Bool(x), HostValue::Bool(y)) => x == y,
        (HostValue::Arr(xs), HostValue::Arr(ys)) => {
            xs.len() == ys.len() && xs.iter().zip(ys.iter()).all(|(x, y)| same_host(x, y))
        }
        _ => false,
    }
}

fn same_list(a: &[HostValue], b: &[HostValue]) -> bool {
    a.len() == b.len() && a.iter().zip(b.iter()).all(|(x, y)| same_host(x, y))
}

fn diff_between(from: &List, to: &List) -> HostValue {
    HostValue::Str(from.diff(&HostValue::Str(to.vclock())).unwrap())
}

#[test]
fn append_scalars_to_vec() {
    let mut l = List::new(1);
    l.append(&host_str("a")).unwrap();
    l.append(&host_num(2.5)).unwrap();
    l.append(&host_bool(true)).unwrap();
    let out = l.to_vec().unwrap();
    assert!(same_list(&out, &[host_str("a"), host_num(2.5), host_bool(true)]));
}

#[test]
fn append_object_rejected() {
    let mut l = List::new(1);
    let r = l.append(&host_obj());
    match r {
        Err(ListError::ValueError(m)) => {
            assert_eq!(m, "unsupported value of type 'object': [object Object]");
        }
        _ => panic!("expected a ValueError"),
    }
    assert!(l.to_vec().unwrap().is_empty());
}

#[test]
fn update_hook_fires_per_mutation() {
    let mut l = List::new(1);
    l.set_on_update();
    let p1 = l.append(&host_str("a")).unwrap();
    let p2 = l.append(&host_str("b")).unwrap();
    let b1: serde_json::Value = serde_json::from_str(&p1.expect("first payload")).unwrap();
    let b2: serde_json::Value = serde_json::from_str(&p2.expect("second payload")).unwrap();
    assert_eq!(b1.as_array().unwrap().len(), 1);
    assert_eq!(b2.as_array().unwrap().len(), 1);
}

#[test]
fn aggregated_updates_flush_once() {
    let mut l = List::new(1);
    l.set_on_update();
    l.aggregate_hooks(true);
    assert!(l.append(&host_str("a")).unwrap().is_none());
    assert!(l.append(&host_str("b")).unwrap().is_none());
    let (payload, fire_apply) = l.aggregate_hooks(false);
    assert!(!fire_apply);
    let batch: serde_json::Value = serde_json::from_str(&payload.expect("one payload")).unwrap();
    assert_eq!(batch.as_array().unwrap().len(), 2);
    let (again, _) = l.aggregate_hooks(false);
    assert!(again.is_none());
}

#[test]
fn diff_apply_transfers_value() {
    let mut a = List::new(1);
    let mut b = List::new(2);
    a.append(&host_str("x")).unwrap();
    let d = diff_between(&a, &b);
    b.apply(&d).unwrap();
    assert!(same_list(&b.to_vec().unwrap(), &[host_str("x")]));
}

#[test]
fn bidirectional_convergence() {
    let mut a = List::new(1);
    let mut b = List::new(2);
    a.append(&host_str("x")).unwrap();
    let d = diff_between(&a, &b);
    b.apply(&d).unwrap();
    b.append(&host_str("y")).unwrap();
    let back = diff_between(&b, &a);
    a.apply(&back).unwrap();
    let want = [host_str("x"), host_str("y")];
    assert!(same_list(&a.to_vec().unwrap(), &want));
    assert!(same_list(&b.to_vec().unwrap(), &want));
}

#[test]
fn dump_rebuilds_fresh_replica() {
    let mut l = List::new(1);
    l.append(&host_str("a")).unwrap();
    let dumped = HostValue::Str(l.dump().unwrap());
    let mut l2 = List::new(1);
    l2.apply(&dumped).unwrap();
    assert!(same_list(&l2.to_vec().unwrap(), &[host_str("a")]));
}

#[test]
fn diff_rejects_non_string() {
    let l = List::new(1);
    match l.diff(&host_num(42.0)) {
        Err(ListError::VClockError(None)) => {}
        _ => panic!("expected a VClockError without a cause"),
    }
}

#[test]
fn diff_rejects_bad_json() {
    let l = List::new(1);
    match l.diff(&host_str("not a clock")) {
        Err(ListError::VClockError(Some(_))) => {}
        _ => panic!("expected a VClockError with a cause"),
    }
}

#[test]
fn apply_rejects_non_string() {
    let mut l = List::new(1);
    match l.apply(&host_bool(true)) {
        Err(ListError::DiffError(None)) => {}
        _ => panic!("expected a DiffError without a cause"),
    }
}

#[test]
fn apply_rejects_bad_json() {
    let mut l = List::new(1);
    match l.apply(&host_str("{ not ops }")) {
        Err(ListError::DiffError(Some(_))) => {}
        _ => panic!("expected a DiffError with a cause"),
    }
}

#[test]
fn marshaller_round_trip() {
    let v = HostValue::Arr(vec![
        host_str("a"),
        host_num(2.5),
        host_bool(false),
        HostValue::Arr(vec![host_num(-0.0), host_str("")]),
    ]);
    let ev = host_to_engine(&v).unwrap();
    let back = engine_to_host(&ev).unwrap();
    assert!(same_host(&v, &back));
}

#[test]
fn non_canonical_number_rejected() {
    let mut l = List::new(1);
    match l.append(&HostValue::Num("2.50".to_string())) {
        Err(ListError::ValueError(m)) => {
            assert_eq!(m, "unsupported number text: 2.50");
        }
        _ => panic!("expected a ValueError"),
    }
}

#[test]
fn tombstone_hidden_after_delete() {
    let mut l = List::new(1);
    l.append(&host_str("a")).unwrap();
    l.append(&host_str("b")).unwrap();
    l.delete(0).unwrap();
    assert!(same_list(&l.to_vec().unwrap(), &[host_str("b")]));
}

#[test]
fn apply_signal_idempotent() {
    let mut a = List::new(1);
    let mut b = List::new(2);
    b.set_on_apply();
    b.aggregate_hooks(true);
    a.append(&host_str("x")).unwrap();
    let d1 = diff_between(&a, &b);
    assert_eq!(b.apply(&d1).unwrap(), false);
    a.append(&host_str("y")).unwrap();
    let d2 = diff_between(&a, &b);
    assert_eq!(b.apply(&d2).unwrap(), false);
    let (_, fire) = b.aggregate_hooks(false);
    assert!(fire, "two pending applies fire the hook once");
    b.aggregate_hooks(true);
    let (_, fire_again) = b.aggregate_hooks(false);
    assert!(!fire_again, "no pending apply, no firing");
}

#[test]
fn apply_fires_immediately_without_aggregation() {
    let mut a = List::new(1);
    let mut b = List::new(2);
    b.set_on_apply();
    a.append(&host_str("x")).unwrap();
    let d = diff_between(&a, &b);
    assert_eq!(b.apply(&d).unwrap(), true);
    let same_again = b.apply(&d).unwrap();
    assert_eq!(same_again, false, "an already-seen batch applies nothing");
}

#[test]
fn failed_mutation_leaves_no_residue() {
    let mut l = List::new(1);
    l.set_on_update();
    l.aggregate_hooks(true);
    assert!(l.append(&host_obj()).is_err());
    let (payload, _) = l.aggregate_hooks(false);
    assert!(payload.is_none(), "a failed mutation buffers nothing");
}

#[test]
fn engine_error_leaves_no_residue() {
    let mut l = List::new(1);
    l.set_on_update();
    match l.insert(7, &host_str("x")) {
        Err(ListError::ListError(m)) => assert_eq!(m, "OutOfBounds"),
        _ => panic!("expected an engine error"),
    }
    let p = l.append(&host_str("a")).unwrap().expect("payload");
    let batch: serde_json::Value = serde_json::from_str(&p).unwrap();
    assert_eq!(batch.as_array().unwrap().len(), 1, "no stale operation precedes");
}

#[test]
fn insert_at_position() {
    let mut l = List::new(1);
    l.append(&host_str("a")).unwrap();
    l.append(&host_str("c")).unwrap();
    l.insert(1, &host_str("b")).unwrap();
    assert!(same_list(&l.to_vec().unwrap(), &[host_str("a"), host_str("b"), host_str("c")]));
}

#[test]
fn prepend_goes_first() {
    let mut l = List::new(1);
    l.append(&host_str("b")).unwrap();
    l.prepend(&host_str("a")).unwrap();
    assert!(same_list(&l.to_vec().unwrap(), &[host_str("a"), host_str("b")]));
}

#[test]
fn delete_out_of_range_errors() {
    let mut l = List::new(1);
    match l.delete(0) {
        Err(ListError::ListError(m)) => assert_eq!(m, "OutOfBounds"),
        _ => panic!("expected an engine error"),
    }
}

#[test]
fn vclock_counts_operations() {
    let mut l = List::new(1);
    l.append(&host_str("a")).unwrap();
    l.append(&host_str("b")).unwrap();
    let clock: serde_json::Value = serde_json::from_str(&l.vclock()).unwrap();
    assert_eq!(clock.as_object().unwrap().get("1").unwrap().as_u64(), Some(2));
}

#[test]
fn unset_update_discards_buffer() {
    let mut l = List::new(1);
    l.set_on_update();
    l.aggregate_hooks(true);
    l.append(&host_str("a")).unwrap();
    l.unset_on_update();
    let (payload, _) = l.aggregate_hooks(false);
    assert!(payload.is_none());
}

#[test]
fn unset_apply_clears_pending() {
    let mut a = List::new(1);
    let mut b = List::new(2);
    b.set_on_apply();
    b.aggregate_hooks(true);
    a.append(&host_str("x")).unwrap();
    let d = diff_between(&a, &b);
    b.apply(&d).unwrap();
    b.unset_on_apply();
    let (_, fire) = b.aggregate_hooks(false);
    assert!(!fire);
}

#[test]
fn error_messages_render() {
    assert_eq!(
        ListError::ValueError("boom".to_string()).message(),
        "ValueError: boom"
    );
    assert_eq!(
        ListError::VClockError(None).message(),
        "VClockError: vclock should be json string"
    );
    assert_eq!(
        ListError::VClockError(Some("why".to_string())).message(),
        "VClockError: vclock should be json string, error: why"
    );
    assert_eq!(
        ListError::DiffError(None).message(),
        "DiffError: diff should be json string"
    );
    assert_eq!(
        ListError::DiffError(Some("why".to_string())).message(),
        "DiffError: diff should be json string, error: why"
    );
    assert_eq!(ListError::ListError("OutOfBounds".to_string()).message(), "OutOfBounds");
}

#[test]
fn nested_array_survives_storage() {
    let mut l = List::new(1);
    let v = HostValue::Arr(vec![
        host_str("x"),
        HostValue::Arr(vec![host_num(1.0), host_bool(true)]),
    ]);
    l.append(&v).unwrap();
    let out = l.to_vec().unwrap();
    assert_eq!(out.len(), 1);
    assert!(same_host(&out[0], &v));
}

#[test]
fn float_text_crosses_engine_unchanged() {
    let mut l = List::new(1);
    l.append(&host_num(2.5)).unwrap();
    l.append(&host_num(-0.0)).unwrap();
    l.append(&host_num(1e300)).unwrap();
    let out = l.to_vec().unwrap();
    assert!(same_list(&out, &[host_num(2.5), host_num(-0.0), host_num(1e300)]));
}

#[test]
fn nested_object_rejected_with_inner_reason() {
    let mut l = List::new(1);
    let v = HostValue::Arr(vec![host_str("fine"), host_obj()]);
    match l.append(&v) {
        Err(ListError::ValueError(m)) => {
            assert_eq!(m, "unsupported value of type 'object': [object Object]");
        }
        _ => panic!("expected a ValueError"),
    }
}

#[test]
fn no_hook_no_payload() {
    let mut l = List::new(1);
    assert!(l.append(&host_str("a")).unwrap().is_none());
    let (p, f) = l.aggregate_hooks(false);
    assert!(p.is_none());
    assert!(!f);
}

#[test]
fn insert_at_bounds() {
    let mut l = List::new(1);
    l.insert(0, &host_str("a")).unwrap();
    l.insert(1, &host_str("b")).unwrap();
    assert!(same_list(&l.to_vec().unwrap(), &[host_str("a"), host_str("b")]));
}

#[test]
fn non_finite_numbers_roundtrip_locally() {
    let mut l = List::new(1);
    l.append(&HostValue::Num("NaN".to_string())).unwrap();
    l.append(&HostValue::Num("inf".to_string())).unwrap();
    let out = l.to_vec().unwrap();
    assert!(same_list(&out, &[HostValue::Num("NaN".to_string()), HostValue::Num("inf".to_string())]));
}

#[test]
fn apply_empty_batch_is_noop() {
    let mut l = List::new(1);
    l.set_on_apply();
    assert_eq!(l.apply(&host_str("[]")).unwrap(), false);
    assert!(l.to_vec().unwrap().is_empty());
}

#[test]
fn diff_at_own_clock_is_empty() {
    let mut l = List::new(1);
    l.append(&host_str("a")).unwrap();
    let d = l.diff(&HostValue::Str(l.vclock())).unwrap();
    assert_eq!(d, "[]");
}
