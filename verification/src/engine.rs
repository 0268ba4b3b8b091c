//! The trusted boundary to the list CRDT engine and the JSON codec.
//!
//! Everything the adapter believes about the outside crates is stated
//! here, one wrapper per outside call, over a small set of named state
//! functions. The engine list and the aggregation buffer live together in
//! one opaque handle: the engine retains closures that push into the
//! buffer through shared interior-mutable ownership for the lifetime of a
//! hook registration, so the pair cannot be separated or declared
//! field by field.

use vstd::prelude::*;

use crate::values::{eng_wf, eview, EngVal, EngineValue};

verus! {

/// Arbitrary-precision integer from the `num` crate; the engine's
/// positional keys are built from ratios of these. Opaque here.
#[verifier::external_type_specification]
#[verifier::external_body]
pub struct ExBigInt(num::BigInt);

/// Rational number from the `num` crate, used inside engine keys. Opaque.
#[verifier::external_type_specification]
#[verifier::external_body]
#[verifier::reject_recursive_types(T)]
pub struct ExRatio<T>(num::rational::Ratio<T>);

/// The engine's operation key: one operation of one process.
#[verifier::external_type_specification]
#[verifier::external_body]
#[verifier::reject_recursive_types(T)]
pub struct ExKey<T>(mycelial_crdt::list::Key<T>);

/// The engine's stored value variant. Opaque; this library works on its
/// own mirror type `EngineValue` instead.
#[verifier::external_type_specification]
#[verifier::external_body]
#[verifier::reject_recursive_types(Key)]
pub struct ExEngineVariant<Key>(mycelial_crdt::list::Value<Key>);

/// One engine operation: a key and a value. Carried through opaquely;
/// only its JSON rendering is ever observed.
#[verifier::external_type_specification]
#[verifier::external_body]
#[verifier::reject_recursive_types(Key)]
pub struct ExOp<Key>(mycelial_crdt::list::Op<Key>);

/// The engine's vector clock: a map from process id to counter.
#[verifier::external_type_specification]
#[verifier::external_body]
pub struct ExVClock(mycelial_crdt::vclock::VClock);

/// Key type of the general-purpose engine list.
pub type EngineKey = mycelial_crdt::list::Key<num::rational::Ratio<num::BigInt>>;

/// Operation type of the general-purpose engine list.
pub type EngineOp = mycelial_crdt::list::Op<EngineKey>;

/// The engine list together with the aggregation buffer its callbacks
/// alias: the ordered pending operations and the remote-apply flag.
#[verifier::external_body]
pub struct Engine {
    inner: mycelial_crdt::list::List,
    buf: std::rc::Rc<std::cell::RefCell<(Vec<EngineOp>, bool)>>,
}

/// The visible values of the engine list, in list order (tombstoned and
/// empty entries excluded), as this library's value model.
pub uninterp spec fn engine_values(e: Engine) -> Seq<EngVal>;

/// Number of entries the engine stores, tombstone entries included; the
/// engine checks raw insertion indices against this count.
pub uninterp spec fn engine_slots(e: Engine) -> nat;

/// Contents of the aggregation buffer, in emission order.
pub uninterp spec fn buffered_ops(e: Engine) -> Seq<EngineOp>;

/// The remote-apply flag of the aggregation buffer.
pub uninterp spec fn apply_flag(e: Engine) -> bool;

/// Whether an engine-side local-update callback is registered.
pub uninterp spec fn update_hook_on(e: Engine) -> bool;

/// Whether an engine-side remote-apply callback is registered.
pub uninterp spec fn apply_hook_on(e: Engine) -> bool;

/// The engine's vector clock as a map from process id to counter.
pub uninterp spec fn engine_clock(e: Engine) -> Map<u64, u64>;

/// The clock map a vector-clock value holds.
pub uninterp spec fn clock_of(vc: mycelial_crdt::vclock::VClock) -> Map<u64, u64>;

/// The clock map a JSON text encodes, if it parses as one.
pub uninterp spec fn clock_of_json(s: Seq<char>) -> Option<Map<u64, u64>>;

/// The JSON rendering of an operation batch.
pub uninterp spec fn ops_json(ops: Seq<EngineOp>) -> Seq<char>;

/// The operation batch a JSON text encodes, if it parses as one.
pub uninterp spec fn ops_of_json(s: Seq<char>) -> Option<Seq<EngineOp>>;

/// The operations of the engine state that a peer at the given clock is
/// missing, in the order the engine emits them.
pub uninterp spec fn diff_ops(e: Engine, peer: Map<u64, u64>) -> Seq<EngineOp>;

/// The empty clock: no process seen yet.
pub open spec fn no_clock() -> Map<u64, u64> {
    Map::empty()
}

/// The peer's clock covers this one: every counter recorded here is at
/// most what the peer records for that process (absent meaning zero).
pub open spec fn covers(peer: Map<u64, u64>, own: Map<u64, u64>) -> bool {
    forall|p: u64|
        #[trigger] own.dom().contains(p) ==> own[p] <= (if peer.dom().contains(p) {
            peer[p]
        } else {
            0
        })
}

/// Whether the engine accepts the batch against this state: walked in
/// order, no operation arrives out of order (each is either already seen
/// or the successor of its process's counter).
pub uninterp spec fn apply_ok(e: Engine, ops: Seq<EngineOp>) -> bool;

/// The visible values after the batch is applied to this state.
pub uninterp spec fn applied_values(e: Engine, ops: Seq<EngineOp>) -> Seq<EngVal>;

/// The stored entry count after the batch is applied to this state.
pub uninterp spec fn applied_slots(e: Engine, ops: Seq<EngineOp>) -> nat;

/// The vector clock after the batch is applied to this state.
pub uninterp spec fn applied_clock(e: Engine, ops: Seq<EngineOp>) -> Map<u64, u64>;

/// Whether the batch holds at least one operation fresh to this state —
/// one the engine has not seen yet.
pub uninterp spec fn applies_fresh(e: Engine, ops: Seq<EngineOp>) -> bool;

/// Relies on `mycelial_crdt::list::List::new`: a fresh list is empty and
/// has no hooks; the buffer starts empty with the flag down.
#[verifier::external_body]
pub(crate) fn engine_new(process: u64) -> (e: Engine)
    ensures
        engine_values(e) == Seq::<EngVal>::empty(),
        engine_slots(e) == 0,
        buffered_ops(e) == Seq::<EngineOp>::empty(),
        !apply_flag(e),
        !update_hook_on(e),
        !apply_hook_on(e),
        engine_clock(e) == no_clock(),
{
    Engine {
        inner: mycelial_crdt::list::List::new(process),
        buf: std::rc::Rc::new(std::cell::RefCell::new((Vec::new(), false))),
    }
}

/// Build the engine's value variant from the model. Relies on the model
/// mirroring `mycelial_crdt::list::Value` case by case; float texts are
/// canonical by the precondition, so `parse` cannot fail.
#[verifier::external_body]
fn engine_value_of(v: &EngineValue) -> mycelial_crdt::list::Value<EngineKey>
    requires
        eng_wf(eview(*v)),
{
    match v {
        EngineValue::Str(s) => mycelial_crdt::list::Value::Str(s.clone()),
        EngineValue::Float(s) => mycelial_crdt::list::Value::Float(s.parse().unwrap()),
        EngineValue::Bool(b) => mycelial_crdt::list::Value::Bool(*b),
        EngineValue::List(vs) => {
            mycelial_crdt::list::Value::Vec(vs.iter().map(engine_value_of).collect())
        },
        EngineValue::Tombstone => mycelial_crdt::list::Value::Empty,
        EngineValue::Empty => mycelial_crdt::list::Value::Empty,
    }
}

/// Read an engine value variant back into the model. Relies on the model
/// mirroring `mycelial_crdt::list::Value` case by case; a float becomes
/// its shortest round-trip rendering, which is canonical.
#[verifier::external_body]
fn model_of(v: &mycelial_crdt::list::Value<EngineKey>) -> EngineValue {
    match v {
        mycelial_crdt::list::Value::Str(s) => EngineValue::Str(s.clone()),
        mycelial_crdt::list::Value::Float(f) => EngineValue::Float(format!("{}", f)),
        mycelial_crdt::list::Value::Bool(b) => EngineValue::Bool(*b),
        mycelial_crdt::list::Value::Vec(vs) => {
            EngineValue::List(vs.iter().map(model_of).collect())
        },
        mycelial_crdt::list::Value::Tombstone(_) => EngineValue::Tombstone,
        _ => EngineValue::Empty,
    }
}

/// Relies on `mycelial_crdt::list::GenericList::append`: with the
/// rational key it always succeeds, emits exactly one operation to the
/// update hook before storing, and stores the value at the end of the
/// visible sequence in one new slot.
#[verifier::external_body]
pub(crate) fn engine_append(e: &mut Engine, v: &EngineValue)
    requires
        eng_wf(eview(*v)),
    ensures
        engine_values(*final(e)) == engine_values(*old(e)).push(eview(*v)),
        engine_slots(*final(e)) == engine_slots(*old(e)) + 1,
        update_hook_on(*final(e)) == update_hook_on(*old(e)),
        apply_hook_on(*final(e)) == apply_hook_on(*old(e)),
        apply_flag(*final(e)) == apply_flag(*old(e)),
        update_hook_on(*old(e)) ==> buffered_ops(*old(e)).is_prefix_of(buffered_ops(*final(e)))
            && buffered_ops(*final(e)).len() == buffered_ops(*old(e)).len() + 1,
        !update_hook_on(*old(e)) ==> buffered_ops(*final(e)) == buffered_ops(*old(e)),
{
    let r = e.inner.append(engine_value_of(v));
    let _ = r;
}

/// Relies on `mycelial_crdt::list::GenericList::prepend`: as `append`,
/// but the value lands at the front of the visible sequence.
#[verifier::external_body]
pub(crate) fn engine_prepend(e: &mut Engine, v: &EngineValue)
    requires
        eng_wf(eview(*v)),
    ensures
        engine_values(*final(e)) == engine_values(*old(e)).insert(0, eview(*v)),
        engine_slots(*final(e)) == engine_slots(*old(e)) + 1,
        update_hook_on(*final(e)) == update_hook_on(*old(e)),
        apply_hook_on(*final(e)) == apply_hook_on(*old(e)),
        apply_flag(*final(e)) == apply_flag(*old(e)),
        update_hook_on(*old(e)) ==> buffered_ops(*old(e)).is_prefix_of(buffered_ops(*final(e)))
            && buffered_ops(*final(e)).len() == buffered_ops(*old(e)).len() + 1,
        !update_hook_on(*old(e)) ==> buffered_ops(*final(e)) == buffered_ops(*old(e)),
{
    let r = e.inner.prepend(engine_value_of(v));
    let _ = r;
}

/// Relies on `mycelial_crdt::list::GenericList::insert`: it rejects a raw
/// index beyond the stored slots with an out-of-bounds error and touches
/// nothing; otherwise it emits one operation and inserts at a visible
/// position settled by the engine's key order — the raw index itself in a
/// single-writer history, but keys of concurrent writers can tie.
#[verifier::external_body]
pub(crate) fn engine_insert(e: &mut Engine, i: usize, v: &EngineValue) -> (r: Result<(), String>)
    requires
        eng_wf(eview(*v)),
    ensures
        r is Err <==> i > engine_slots(*old(e)),
        update_hook_on(*final(e)) == update_hook_on(*old(e)),
        apply_hook_on(*final(e)) == apply_hook_on(*old(e)),
        apply_flag(*final(e)) == apply_flag(*old(e)),
        r matches Err(m) ==> m@ == "OutOfBounds"@
            && engine_values(*final(e)) == engine_values(*old(e))
            && engine_slots(*final(e)) == engine_slots(*old(e))
            && buffered_ops(*final(e)) == buffered_ops(*old(e)),
        r is Ok ==> engine_slots(*final(e)) == engine_slots(*old(e)) + 1
            && (exists|j: int|
            0 <= j <= engine_values(*old(e)).len() && engine_values(*final(e)) == engine_values(
                *old(e),
            ).insert(j, eview(*v))),
        r is Ok && update_hook_on(*old(e)) ==> buffered_ops(*old(e)).is_prefix_of(
            buffered_ops(*final(e)),
        ) && buffered_ops(*final(e)).len() == buffered_ops(*old(e)).len() + 1,
        r is Ok && !update_hook_on(*old(e)) ==> buffered_ops(*final(e)) == buffered_ops(*old(e)),
{
    e.inner.insert(i, engine_value_of(v)).map_err(|er| format!("{:?}", er))
}

/// Relies on `mycelial_crdt::list::GenericList::delete`: it rejects an
/// index at or past the visible length with an out-of-bounds error and
/// touches nothing; otherwise it emits one tombstone operation and
/// removes the value at that visible position, keeping the slot count.
#[verifier::external_body]
pub(crate) fn engine_delete(e: &mut Engine, i: usize) -> (r: Result<(), String>)
    ensures
        r is Err <==> i >= engine_values(*old(e)).len(),
        update_hook_on(*final(e)) == update_hook_on(*old(e)),
        apply_hook_on(*final(e)) == apply_hook_on(*old(e)),
        apply_flag(*final(e)) == apply_flag(*old(e)),
        r matches Err(m) ==> m@ == "OutOfBounds"@
            && engine_values(*final(e)) == engine_values(*old(e))
            && engine_slots(*final(e)) == engine_slots(*old(e))
            && buffered_ops(*final(e)) == buffered_ops(*old(e)),
        r is Ok ==> engine_values(*final(e)) == engine_values(*old(e)).remove(i as int)
            && engine_slots(*final(e)) == engine_slots(*old(e)),
        r is Ok && update_hook_on(*old(e)) ==> buffered_ops(*old(e)).is_prefix_of(
            buffered_ops(*final(e)),
        ) && buffered_ops(*final(e)).len() == buffered_ops(*old(e)).len() + 1,
        r is Ok && !update_hook_on(*old(e)) ==> buffered_ops(*final(e)) == buffered_ops(*old(e)),
{
    e.inner.delete(i).map_err(|er| format!("{:?}", er))
}

/// Relies on `mycelial_crdt::list::GenericList::apply`: its outcome is a
/// function of the engine state and the batch alone (the loop reads only
/// the vector clock and the operation keys, in batch order), so the
/// outcome carries the names above. It never touches the update path; it
/// fires the remote-apply hook — raising the flag — exactly when it
/// returns success after applying at least one fresh operation, and it
/// never lowers the flag. On a rejected batch it errors before the hook,
/// possibly after applying a prefix. An empty batch is accepted and
/// changes nothing.
#[verifier::external_body]
pub(crate) fn engine_apply(e: &mut Engine, ops: &Vec<EngineOp>) -> (r: Result<(), String>)
    ensures
        update_hook_on(*final(e)) == update_hook_on(*old(e)),
        apply_hook_on(*final(e)) == apply_hook_on(*old(e)),
        buffered_ops(*final(e)) == buffered_ops(*old(e)),
        r is Ok <==> apply_ok(*old(e), ops@),
        r is Ok ==> engine_values(*final(e)) == applied_values(*old(e), ops@)
            && engine_slots(*final(e)) == applied_slots(*old(e), ops@)
            && engine_clock(*final(e)) == applied_clock(*old(e), ops@),
        r is Ok && apply_hook_on(*old(e)) ==> apply_flag(*final(e)) == (apply_flag(*old(e))
            || applies_fresh(*old(e), ops@)),
        r is Err ==> apply_flag(*final(e)) == apply_flag(*old(e)),
        !apply_hook_on(*old(e)) ==> apply_flag(*final(e)) == apply_flag(*old(e)),
        ops@.len() == 0 ==> r is Ok && !applies_fresh(*old(e), ops@) && applied_values(
            *old(e),
            ops@,
        ) == engine_values(*old(e)) && applied_slots(*old(e), ops@) == engine_slots(*old(e))
            && applied_clock(*old(e), ops@) == engine_clock(*old(e)),
{
    e.inner.apply(ops.as_slice()).map_err(|er| format!("{:?}", er))
}

/// Relies on `mycelial_crdt::list::GenericList::iter`: it yields exactly
/// the visible values, in list order; the conversion to the model is case
/// by case.
#[verifier::external_body]
pub(crate) fn engine_to_vec(e: &Engine) -> (r: Vec<EngineValue>)
    ensures
        r@.len() == engine_values(*e).len(),
        forall|i: int|
            0 <= i < r@.len() ==> eview(#[trigger] r@[i]) == engine_values(*e)[i],
{
    e.inner.iter().map(model_of).collect()
}

/// Relies on `mycelial_crdt::list::GenericList::set_on_update`: it only
/// replaces the update hook. The closure handed over appends every emitted
/// operation to the shared buffer, in emission order.
#[verifier::external_body]
pub(crate) fn engine_set_on_update(e: &mut Engine)
    ensures
        update_hook_on(*final(e)),
        apply_hook_on(*final(e)) == apply_hook_on(*old(e)),
        apply_flag(*final(e)) == apply_flag(*old(e)),
        buffered_ops(*final(e)) == buffered_ops(*old(e)),
        engine_values(*final(e)) == engine_values(*old(e)),
        engine_slots(*final(e)) == engine_slots(*old(e)),
        engine_clock(*final(e)) == engine_clock(*old(e)),
{
    let state = std::rc::Rc::clone(&e.buf);
    e.inner.set_on_update(Box::new(move |op| {
        state.borrow_mut().0.push(op.clone());
    }));
}

/// Relies on `mycelial_crdt::list::GenericList::unset_on_update`: it only
/// drops the update hook.
#[verifier::external_body]
pub(crate) fn engine_unset_on_update(e: &mut Engine)
    ensures
        !update_hook_on(*final(e)),
        apply_hook_on(*final(e)) == apply_hook_on(*old(e)),
        apply_flag(*final(e)) == apply_flag(*old(e)),
        buffered_ops(*final(e)) == buffered_ops(*old(e)),
        engine_values(*final(e)) == engine_values(*old(e)),
        engine_slots(*final(e)) == engine_slots(*old(e)),
        engine_clock(*final(e)) == engine_clock(*old(e)),
{
    e.inner.unset_on_update();
}

/// Relies on `mycelial_crdt::list::GenericList::set_on_apply`: it only
/// replaces the apply hook. The closure handed over raises the shared
/// remote-apply flag.
#[verifier::external_body]
pub(crate) fn engine_set_on_apply(e: &mut Engine)
    ensures
        apply_hook_on(*final(e)),
        update_hook_on(*final(e)) == update_hook_on(*old(e)),
        apply_flag(*final(e)) == apply_flag(*old(e)),
        buffered_ops(*final(e)) == buffered_ops(*old(e)),
        engine_values(*final(e)) == engine_values(*old(e)),
        engine_slots(*final(e)) == engine_slots(*old(e)),
        engine_clock(*final(e)) == engine_clock(*old(e)),
{
    let state = std::rc::Rc::clone(&e.buf);
    e.inner.set_on_apply(Box::new(move || {
        state.borrow_mut().1 = true;
    }));
}

/// Relies on `mycelial_crdt::list::GenericList::unset_on_apply`: it only
/// drops the apply hook.
#[verifier::external_body]
pub(crate) fn engine_unset_on_apply(e: &mut Engine)
    ensures
        !apply_hook_on(*final(e)),
        update_hook_on(*final(e)) == update_hook_on(*old(e)),
        apply_flag(*final(e)) == apply_flag(*old(e)),
        buffered_ops(*final(e)) == buffered_ops(*old(e)),
        engine_values(*final(e)) == engine_values(*old(e)),
        engine_slots(*final(e)) == engine_slots(*old(e)),
        engine_clock(*final(e)) == engine_clock(*old(e)),
{
    e.inner.unset_on_apply();
}

/// Empties the shared buffer of pending operations. Relies only on
/// `Vec::clear` through the shared cell.
#[verifier::external_body]
pub(crate) fn engine_clear_ops(e: &mut Engine)
    ensures
        buffered_ops(*final(e)) == Seq::<EngineOp>::empty(),
        update_hook_on(*final(e)) == update_hook_on(*old(e)),
        apply_hook_on(*final(e)) == apply_hook_on(*old(e)),
        apply_flag(*final(e)) == apply_flag(*old(e)),
        engine_values(*final(e)) == engine_values(*old(e)),
        engine_slots(*final(e)) == engine_slots(*old(e)),
        engine_clock(*final(e)) == engine_clock(*old(e)),
{
    e.buf.borrow_mut().0.clear();
}

/// Lowers the shared remote-apply flag.
#[verifier::external_body]
pub(crate) fn engine_clear_flag(e: &mut Engine)
    ensures
        !apply_flag(*final(e)),
        update_hook_on(*final(e)) == update_hook_on(*old(e)),
        apply_hook_on(*final(e)) == apply_hook_on(*old(e)),
        buffered_ops(*final(e)) == buffered_ops(*old(e)),
        engine_values(*final(e)) == engine_values(*old(e)),
        engine_slots(*final(e)) == engine_slots(*old(e)),
        engine_clock(*final(e)) == engine_clock(*old(e)),
{
    e.buf.borrow_mut().1 = false;
}

/// Drains the shared buffer, handing its contents out in emission order.
/// Relies only on `std::mem::take` through the shared cell.
#[verifier::external_body]
pub(crate) fn take_buffered(e: &mut Engine) -> (r: Vec<EngineOp>)
    ensures
        r@ == buffered_ops(*old(e)),
        buffered_ops(*final(e)) == Seq::<EngineOp>::empty(),
        update_hook_on(*final(e)) == update_hook_on(*old(e)),
        apply_hook_on(*final(e)) == apply_hook_on(*old(e)),
        apply_flag(*final(e)) == apply_flag(*old(e)),
        engine_values(*final(e)) == engine_values(*old(e)),
        engine_slots(*final(e)) == engine_slots(*old(e)),
        engine_clock(*final(e)) == engine_clock(*old(e)),
{
    std::mem::take(&mut e.buf.borrow_mut().0)
}

/// Takes the shared remote-apply flag down, handing its old state out.
/// Relies only on `std::mem::replace` through the shared cell.
#[verifier::external_body]
pub(crate) fn take_apply_flag(e: &mut Engine) -> (r: bool)
    ensures
        r == apply_flag(*old(e)),
        !apply_flag(*final(e)),
        update_hook_on(*final(e)) == update_hook_on(*old(e)),
        apply_hook_on(*final(e)) == apply_hook_on(*old(e)),
        buffered_ops(*final(e)) == buffered_ops(*old(e)),
        engine_values(*final(e)) == engine_values(*old(e)),
        engine_slots(*final(e)) == engine_slots(*old(e)),
        engine_clock(*final(e)) == engine_clock(*old(e)),
{
    std::mem::replace(&mut e.buf.borrow_mut().1, false)
}

/// Relies on `serde_json::to_string` of the engine's vector clock: the
/// rendering is a JSON object with one stringified process id per entry,
/// so it parses back to exactly the engine's clock map. Serializing a map
/// with integer keys cannot fail, so the unwrap cannot fire; the entry
/// order may differ between runs, which is why only the parse relation is
/// stated.
#[verifier::external_body]
pub(crate) fn engine_vclock_json(e: &Engine) -> (r: String)
    ensures
        clock_of_json(r@) == Some(engine_clock(*e)),
{
    serde_json::to_string(e.inner.vclock()).unwrap()
}

/// Relies on `serde_json::from_str` for the vector clock: it succeeds
/// exactly on JSON texts that encode a clock map, and returns that map.
/// The error is its message.
#[verifier::external_body]
pub(crate) fn parse_vclock(s: &str) -> (r: Result<mycelial_crdt::vclock::VClock, String>)
    ensures
        r is Ok <==> clock_of_json(s@) is Some,
        r matches Ok(vc) ==> clock_of_json(s@) == Some(clock_of(vc)),
{
    serde_json::from_str(s).map_err(|er| format!("{}", er))
}

/// Relies on `mycelial_crdt::vclock::VClock::new`: the fresh clock is the
/// empty map.
#[verifier::external_body]
pub(crate) fn empty_vclock() -> (vc: mycelial_crdt::vclock::VClock)
    ensures
        clock_of(vc) == no_clock(),
{
    mycelial_crdt::vclock::VClock::new()
}

/// Relies on `mycelial_crdt::list::GenericList::diff`: the batch of
/// operations a peer at the given clock is missing is a function of the
/// engine state and that clock alone (the engine walks its ordered store
/// and sorts the result by operation number). A peer whose clock covers
/// the engine's own is missing nothing: the clock difference has no
/// range, so no operation qualifies.
#[verifier::external_body]
pub(crate) fn engine_diff(e: &Engine, vc: &mycelial_crdt::vclock::VClock) -> (r: Vec<EngineOp>)
    ensures
        r@ == diff_ops(*e, clock_of(*vc)),
        covers(clock_of(*vc), engine_clock(*e)) ==> r@ == Seq::<EngineOp>::empty(),
{
    e.inner.diff(vc)
}

/// Relies on `serde_json::to_string` of an operation batch: the rendering
/// is a JSON array, a function of the operations alone, and serializing
/// these derived structures cannot fail, so the unwrap cannot fire. The
/// rendering reads back as the same batch whenever it parses at all; the
/// one lossy corner is a non-finite float, which renders as null and then
/// fails to parse as an operation, so that case falls outside the
/// conditional. An empty batch renders as the empty array, which parses.
#[verifier::external_body]
pub(crate) fn ops_to_json(ops: &Vec<EngineOp>) -> (r: String)
    ensures
        r@ == ops_json(ops@),
        ops_of_json(r@) is Some ==> ops_of_json(r@) == Some(ops@),
        ops@.len() == 0 ==> ops_of_json(r@) == Some(ops@),
{
    serde_json::to_string(ops.as_slice()).unwrap()
}

/// Relies on `serde_json::from_str` for an operation batch: it succeeds
/// exactly on JSON texts that encode one, and returns that batch. The
/// error is its message.
#[verifier::external_body]
pub(crate) fn parse_ops(s: &str) -> (r: Result<Vec<EngineOp>, String>)
    ensures
        r is Ok <==> ops_of_json(s@) is Some,
        r matches Ok(ops) ==> ops_of_json(s@) == Some(ops@),
{
    serde_json::from_str(s).map_err(|er| format!("{}", er))
}

} // verus!
