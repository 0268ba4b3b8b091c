//! The public list facade: construction, mutation, query, diff/apply,
//! dump, hook registration and aggregation.
//!
//! Host callbacks are first-class values of the host runtime, which this
//! library cannot hold; it decides instead. Every mutating call returns,
//! besides its result, what the caller must hand to the registered hook:
//! the JSON payload of the flushed operations for the update hook, or a
//! flag telling it to fire the apply hook. The caller keeps the actual
//! callbacks and fires them with what it is handed; the decision of when
//! and with what is made — and proved — here.

use vstd::prelude::*;

use crate::engine::{
    applied_clock, applied_slots, applied_values, applies_fresh, apply_flag, apply_hook_on,
    apply_ok, buffered_ops, clock_of, clock_of_json, covers, diff_ops, empty_vclock,
    engine_append, engine_apply, engine_clear_flag, engine_clear_ops, engine_clock, engine_delete,
    engine_diff, engine_insert, engine_new, engine_prepend, engine_set_on_apply,
    engine_set_on_update, engine_slots, engine_to_vec, engine_unset_on_apply,
    engine_unset_on_update, engine_values, engine_vclock_json, update_hook_on, no_clock, ops_json, ops_of_json,
    parse_ops, parse_vclock, take_apply_flag, take_buffered, Engine, EngineOp,
};
use crate::errors::ListError;
use crate::marshal::{
    eng_first_bad, eng_reject_msg, engine_to_host, host_to_engine, lemma_eng_first_bad, reject_msg,
};
use crate::values::{
    accepted, e2h, eng_wf, eview, h2e, hview, lemma_h2e_wf, EngVal, EngineValue, HostVal, HostValue,
};

verus! {

/// One replicated list: the engine, the registration state of the two
/// host hooks, and the aggregation mode.
pub struct List {
    engine: Engine,
    on_update: bool,
    on_apply: bool,
    aggregate_hooks: bool,
}

impl List {
    /// The visible values, in list order, as models.
    pub closed spec fn values(self) -> Seq<EngVal> {
        engine_values(self.engine)
    }

    /// Number of slots the engine stores, tombstones included.
    pub closed spec fn slots(self) -> nat {
        engine_slots(self.engine)
    }

    /// Operations waiting in the aggregation buffer, in emission order.
    pub closed spec fn buffered(self) -> Seq<EngineOp> {
        buffered_ops(self.engine)
    }

    /// Whether a remote apply awaits notification.
    pub closed spec fn applied(self) -> bool {
        apply_flag(self.engine)
    }

    /// Whether the local-update hook is registered.
    pub closed spec fn update_hooked(self) -> bool {
        self.on_update
    }

    /// Whether the remote-apply hook is registered.
    pub closed spec fn apply_hooked(self) -> bool {
        self.on_apply
    }

    /// Whether hook firings are being aggregated.
    pub closed spec fn aggregating(self) -> bool {
        self.aggregate_hooks
    }

    /// The vector clock, as a map from process id to counter.
    pub closed spec fn clock(self) -> Map<u64, u64> {
        engine_clock(self.engine)
    }

    /// The JSON payload `diff` produces for a peer at the given clock.
    pub closed spec fn diff_payload(self, peer: Map<u64, u64>) -> Seq<char> {
        ops_json(diff_ops(self.engine, peer))
    }

    /// Whether the engine accepts the batch against this state.
    pub closed spec fn apply_accepts(self, ops: Seq<EngineOp>) -> bool {
        apply_ok(self.engine, ops)
    }

    /// The visible values once the batch is applied to this state.
    pub closed spec fn values_after(self, ops: Seq<EngineOp>) -> Seq<EngVal> {
        applied_values(self.engine, ops)
    }

    /// The slot count once the batch is applied to this state.
    pub closed spec fn slots_after(self, ops: Seq<EngineOp>) -> nat {
        applied_slots(self.engine, ops)
    }

    /// The vector clock once the batch is applied to this state.
    pub closed spec fn clock_after(self, ops: Seq<EngineOp>) -> Map<u64, u64> {
        applied_clock(self.engine, ops)
    }

    /// Whether the batch holds an operation fresh to this state.
    pub closed spec fn fresh_in(self, ops: Seq<EngineOp>) -> bool {
        applies_fresh(self.engine, ops)
    }

    /// Well-formed: the hook flags mirror the engine-side registrations,
    /// the buffer only fills while the update hook is registered, and the
    /// apply flag only rises while the apply hook is.
    pub closed spec fn wf(self) -> bool {
        &&& self.on_update == update_hook_on(self.engine)
        &&& self.on_apply == apply_hook_on(self.engine)
        &&& !self.on_update ==> buffered_ops(self.engine).len() == 0
        &&& !self.on_apply ==> !apply_flag(self.engine)
    }

    /// Create a new replica for the given process id.
    pub fn new(process: u64) -> (l: List)
        ensures
            l.wf(),
            l.values() == Seq::<EngVal>::empty(),
            l.slots() == 0,
            l.buffered() == Seq::<EngineOp>::empty(),
            !l.applied(),
            !l.update_hooked(),
            !l.apply_hooked(),
            !l.aggregating(),
            l.clock() == no_clock(),
    {
        List {
            engine: engine_new(process),
            on_update: false,
            on_apply: false,
            aggregate_hooks: false,
        }
    }

    /// Register the local-update hook: from here on the engine feeds every
    /// emitted operation into the aggregation buffer.
    pub fn set_on_update(&mut self)
        requires
            old(self).wf(),
        ensures
            final(self).wf(),
            final(self).update_hooked(),
            final(self).apply_hooked() == old(self).apply_hooked(),
            final(self).aggregating() == old(self).aggregating(),
            final(self).values() == old(self).values(),
            final(self).slots() == old(self).slots(),
            final(self).buffered() == old(self).buffered(),
            final(self).applied() == old(self).applied(),
            final(self).clock() == old(self).clock(),
    {
        engine_set_on_update(&mut self.engine);
        self.on_update = true;
    }

    /// Remove the local-update hook; operations still buffered are
    /// discarded.
    pub fn unset_on_update(&mut self)
        requires
            old(self).wf(),
        ensures
            final(self).wf(),
            !final(self).update_hooked(),
            final(self).apply_hooked() == old(self).apply_hooked(),
            final(self).aggregating() == old(self).aggregating(),
            final(self).values() == old(self).values(),
            final(self).slots() == old(self).slots(),
            final(self).buffered().len() == 0,
            final(self).applied() == old(self).applied(),
            final(self).clock() == old(self).clock(),
    {
        engine_unset_on_update(&mut self.engine);
        engine_clear_ops(&mut self.engine);
        self.on_update = false;
    }

    /// Register the remote-apply hook: from here on a remote apply raises
    /// the pending-notification flag.
    pub fn set_on_apply(&mut self)
        requires
            old(self).wf(),
        ensures
            final(self).wf(),
            final(self).apply_hooked(),
            final(self).update_hooked() == old(self).update_hooked(),
            final(self).aggregating() == old(self).aggregating(),
            final(self).values() == old(self).values(),
            final(self).slots() == old(self).slots(),
            final(self).buffered() == old(self).buffered(),
            final(self).applied() == old(self).applied(),
            final(self).clock() == old(self).clock(),
    {
        engine_set_on_apply(&mut self.engine);
        self.on_apply = true;
    }

    /// Remove the remote-apply hook; a pending notification is discarded.
    pub fn unset_on_apply(&mut self)
        requires
            old(self).wf(),
        ensures
            final(self).wf(),
            !final(self).apply_hooked(),
            final(self).update_hooked() == old(self).update_hooked(),
            final(self).aggregating() == old(self).aggregating(),
            final(self).values() == old(self).values(),
            final(self).slots() == old(self).slots(),
            final(self).buffered() == old(self).buffered(),
            !final(self).applied(),
            final(self).clock() == old(self).clock(),
    {
        engine_unset_on_apply(&mut self.engine);
        engine_clear_flag(&mut self.engine);
        self.on_apply = false;
    }

    /// Flush the update side: outside aggregation, drain the buffer and
    /// hand back its JSON for the update hook if it was non-empty and the
    /// hook is registered.
    fn flush_update(&mut self) -> (p: Option<String>)
        requires
            old(self).wf(),
        ensures
            final(self).wf(),
            update_flush(*old(self), *final(self), p),
    {
        if self.aggregate_hooks {
            return None;
        }
        let ops = take_buffered(&mut self.engine);
        if ops.len() == 0 {
            return None;
        }
        Some(crate::engine::ops_to_json(&ops))
    }

    /// Flush the apply side: outside aggregation, take the flag down and
    /// say whether the apply hook must fire.
    fn flush_apply(&mut self) -> (fire: bool)
        requires
            old(self).wf(),
        ensures
            final(self).wf(),
            apply_flush(*old(self), *final(self), fire),
    {
        if self.aggregate_hooks {
            return false;
        }
        let was = take_apply_flag(&mut self.engine);
        was && self.on_apply
    }

    /// Append a host value at the end of the list.
    pub fn append(&mut self, v: &HostValue) -> (r: Result<Option<String>, ListError>)
        requires
            old(self).wf(),
        ensures
            final(self).wf(),
            r is Ok <==> accepted(hview(*v)),
            r matches Err(e) ==> (e matches ListError::ValueError(m) && m@ == reject_msg(
                hview(*v),
            ) && *final(self) == *old(self)),
            r matches Ok(p) ==> (final(self).values() == old(self).values().push(h2e(hview(*v)))
                && final(self).slots() == old(self).slots() + 1
                && mutation_notice(*old(self), *final(self), p)),
    {
        let ev = match host_to_engine(v) {
            Ok(ev) => ev,
            Err(e) => { return Err(e) },
        };
        proof {
            lemma_h2e_wf(hview(*v));
        }
        engine_append(&mut self.engine, &ev);
        Ok(self.flush_update())
    }

    /// Insert a host value at the head of the list.
    pub fn prepend(&mut self, v: &HostValue) -> (r: Result<Option<String>, ListError>)
        requires
            old(self).wf(),
        ensures
            final(self).wf(),
            r is Ok <==> accepted(hview(*v)),
            r matches Err(e) ==> (e matches ListError::ValueError(m) && m@ == reject_msg(
                hview(*v),
            ) && *final(self) == *old(self)),
            r matches Ok(p) ==> (final(self).values() == old(self).values().insert(
                0,
                h2e(hview(*v)),
            ) && final(self).slots() == old(self).slots() + 1
                && mutation_notice(*old(self), *final(self), p)),
    {
        let ev = match host_to_engine(v) {
            Ok(ev) => ev,
            Err(e) => { return Err(e) },
        };
        proof {
            lemma_h2e_wf(hview(*v));
        }
        engine_prepend(&mut self.engine, &ev);
        Ok(self.flush_update())
    }

    /// Insert a host value at the given raw index. The engine counts its
    /// stored slots, tombstones included, and settles the visible position
    /// by its key order; in a single-writer history without deletions the
    /// raw index is the visible position.
    pub fn insert(&mut self, index: usize, v: &HostValue) -> (r: Result<
        Option<String>,
        ListError,
    >)
        requires
            old(self).wf(),
        ensures
            final(self).wf(),
            r is Ok <==> accepted(hview(*v)) && index <= old(self).slots(),
            !accepted(hview(*v)) ==> (r matches Err(e) && e matches ListError::ValueError(m)
                && m@ == reject_msg(hview(*v)) && *final(self) == *old(self)),
            accepted(hview(*v)) && index > old(self).slots() ==> (r matches Err(e)
                && e matches ListError::ListError(m) && m@ == "OutOfBounds"@
                && unchanged_observables(*old(self), *final(self))),
            r matches Ok(p) ==> (final(self).slots() == old(self).slots() + 1 && (exists|j: int|
                0 <= j <= old(self).values().len() && final(self).values() == old(
                    self,
                ).values().insert(j, h2e(hview(*v)))) && mutation_notice(
                *old(self),
                *final(self),
                p,
            )),
    {
        let ev = match host_to_engine(v) {
            Ok(ev) => ev,
            Err(e) => { return Err(e) },
        };
        proof {
            lemma_h2e_wf(hview(*v));
        }
        let ghost pre = *old(self);
        match engine_insert(&mut self.engine, index, &ev) {
            Ok(()) => {
                let ghost mid = *self;
                let p = self.flush_update();
                proof {
                    let j0 = choose|j: int|
                        0 <= j <= pre.values().len() && mid.values() == pre.values().insert(
                            j,
                            eview(ev),
                        );
                    assert(eview(ev) == h2e(hview(*v)));
                    assert(self.values() == pre.values().insert(j0, h2e(hview(*v))));
                }
                Ok(p)
            },
            Err(m) => Err(ListError::ListError(m)),
        }
    }

    /// Delete the value at the given visible index.
    pub fn delete(&mut self, index: usize) -> (r: Result<Option<String>, ListError>)
        requires
            old(self).wf(),
        ensures
            final(self).wf(),
            r is Ok <==> index < old(self).values().len(),
            r matches Err(e) ==> (e matches ListError::ListError(m) && m@ == "OutOfBounds"@
                && unchanged_observables(*old(self), *final(self))),
            r matches Ok(p) ==> (final(self).values() == old(self).values().remove(index as int)
                && final(self).slots() == old(self).slots() && mutation_notice(
                *old(self),
                *final(self),
                p,
            )),
    {
        match engine_delete(&mut self.engine, index) {
            Ok(()) => Ok(self.flush_update()),
            Err(m) => Err(ListError::ListError(m)),
        }
    }

    /// Apply a remote diff, handed over as a JSON string of an operation
    /// batch. A decode failure is the only source of `DiffError`: once the
    /// batch decodes, the call succeeds exactly when the engine accepts
    /// it, and the new state is the named outcome of applying it. On
    /// success the returned flag says whether the apply hook must fire
    /// now.
    pub fn apply(&mut self, v: &HostValue) -> (r: Result<bool, ListError>)
        requires
            old(self).wf(),
        ensures
            final(self).wf(),
            !(hview(*v) is Str) ==> (r matches Err(e) && e matches ListError::DiffError(c)
                && c is None && *final(self) == *old(self)),
            (hview(*v) matches HostVal::Str(s) && ops_of_json(s) is None) ==> (r matches Err(e)
                && e matches ListError::DiffError(c) && c is Some && *final(self) == *old(self)),
            final(self).buffered() == old(self).buffered(),
            final(self).update_hooked() == old(self).update_hooked(),
            final(self).apply_hooked() == old(self).apply_hooked(),
            final(self).aggregating() == old(self).aggregating(),
            (r matches Err(e) && e is ListError) ==> final(self).applied() == old(self).applied(),
            r matches Ok(fire) ==> {
                &&& fire ==> old(self).apply_hooked()
                &&& old(self).aggregating() ==> fire == false
                &&& !old(self).aggregating() ==> !final(self).applied()
            },
            hview(*v) matches HostVal::Str(s) ==> (ops_of_json(s) matches Some(b) ==> {
                &&& r is Ok <==> old(self).apply_accepts(b)
                &&& !old(self).apply_accepts(b) ==> (r matches Err(e2) && e2 is ListError)
                &&& r is Ok ==> final(self).values() == old(self).values_after(b)
                    && final(self).slots() == old(self).slots_after(b)
                    && final(self).clock() == old(self).clock_after(b)
                &&& r is Ok && old(self).apply_hooked() && old(self).aggregating()
                    ==> final(self).applied() == (old(self).applied() || old(self).fresh_in(b))
                &&& r matches Ok(fire2) ==> ((old(self).apply_hooked() && !old(
                    self,
                ).aggregating()) ==> fire2 == (old(self).applied() || old(self).fresh_in(b)))
            }),
    {
        let s = match v {
            HostValue::Str(s) => s,
            _ => { return Err(ListError::DiffError(None)) },
        };
        let ops = match parse_ops(s.as_str()) {
            Ok(ops) => ops,
            Err(m) => { return Err(ListError::DiffError(Some(m))) },
        };
        match engine_apply(&mut self.engine, &ops) {
            Ok(()) => Ok(self.flush_apply()),
            Err(m) => Err(ListError::ListError(m)),
        }
    }

    /// Hand the current visible values out as host values.
    ///
    /// Fails only when the engine holds a value unfit for the boundary —
    /// an internal case nested inside a remotely applied value.
    pub fn to_vec(&self) -> (r: Result<Vec<HostValue>, ListError>)
        ensures
            r is Ok <==> (forall|i: int|
                0 <= i < self.values().len() ==> eng_wf(#[trigger] self.values()[i])),
            r matches Ok(out) ==> (out@.len() == self.values().len() && (forall|i: int|
                0 <= i < out@.len() ==> hview(#[trigger] out@[i]) == e2h(self.values()[i]))),
            r matches Err(e) ==> (e matches ListError::ValueError(m) && m@ == eng_reject_msg(
                self.values()[eng_first_bad(self.values())],
            )),
    {
        let evs = engine_to_vec(&self.engine);
        let mut out: Vec<HostValue> = Vec::new();
        let mut i: usize = 0;
        while i < evs.len()
            invariant
                i <= evs.len(),
                out@.len() == i,
                evs@.len() == self.values().len(),
                forall|j: int|
                    0 <= j < evs@.len() ==> eview(#[trigger] evs@[j]) == self.values()[j],
                forall|j: int| 0 <= j < i ==> eng_wf(#[trigger] self.values()[j]),
                forall|j: int|
                    0 <= j < i ==> hview(#[trigger] out@[j]) == e2h(self.values()[j]),
            decreases evs.len() - i,
        {
            match engine_to_host(&evs[i]) {
                Ok(h) => {
                    out.push(h);
                },
                Err(e) => {
                    proof {
                        lemma_eng_first_bad(self.values(), i as int);
                    }
                    return Err(e);
                },
            }
            i += 1;
        }
        Ok(out)
    }

    /// The vector clock, rendered as a JSON object keyed by stringified
    /// process ids.
    pub fn vclock(&self) -> (r: String)
        ensures
            clock_of_json(r@) == Some(self.clock()),
    {
        engine_vclock_json(&self.engine)
    }

    /// The operations a peer is missing, judged by its vector clock handed
    /// over as a JSON string; the result is the batch as a JSON string. A
    /// peer whose clock covers this replica's own — in particular this
    /// replica itself — is missing nothing and gets the empty batch.
    pub fn diff(&self, v: &HostValue) -> (r: Result<String, ListError>)
        ensures
            r is Ok <==> (hview(*v) matches HostVal::Str(s) && clock_of_json(s) is Some),
            !(hview(*v) is Str) ==> (r matches Err(e) && e matches ListError::VClockError(c)
                && c is None),
            (hview(*v) matches HostVal::Str(s) && clock_of_json(s) is None) ==> (r matches Err(
                e,
            ) && e matches ListError::VClockError(c) && c is Some),
            hview(*v) matches HostVal::Str(s) ==> (clock_of_json(s) is Some ==> (r matches Ok(
                d,
            ) && d@ == self.diff_payload(clock_of_json(s).unwrap()))),
            hview(*v) matches HostVal::Str(s) ==> (clock_of_json(s) matches Some(m2) ==> (
            covers(m2, self.clock()) ==> (r matches Ok(d2) && ops_of_json(d2@) == Some(
                Seq::<EngineOp>::empty(),
            )))),
    {
        let s = match v {
            HostValue::Str(s) => s,
            _ => { return Err(ListError::VClockError(None)) },
        };
        let vc = match parse_vclock(s.as_str()) {
            Ok(vc) => vc,
            Err(m) => { return Err(ListError::VClockError(Some(m))) },
        };
        let ops = engine_diff(&self.engine, &vc);
        Ok(crate::engine::ops_to_json(&ops))
    }

    /// The whole state as one JSON operation batch: the diff against the
    /// empty clock, sufficient to rebuild the list on a fresh replica.
    pub fn dump(&self) -> (r: Result<String, ListError>)
        ensures
            r matches Ok(d) && d@ == self.diff_payload(no_clock()),
    {
        let vc = empty_vclock();
        let ops = engine_diff(&self.engine, &vc);
        Ok(crate::engine::ops_to_json(&ops))
    }

    /// Switch hook aggregation on or off. Turning it off flushes both
    /// sides at once, update first: the returned payload and flag are what
    /// the caller must hand to the hooks, as after a mutation.
    pub fn aggregate_hooks(&mut self, aggregate: bool) -> (r: (Option<String>, bool))
        requires
            old(self).wf(),
        ensures
            final(self).wf(),
            final(self).aggregating() == aggregate,
            final(self).update_hooked() == old(self).update_hooked(),
            final(self).apply_hooked() == old(self).apply_hooked(),
            final(self).values() == old(self).values(),
            final(self).slots() == old(self).slots(),
            final(self).clock() == old(self).clock(),
            aggregate ==> (r.0 is None && r.1 == false
                && final(self).buffered() == old(self).buffered()
                && final(self).applied() == old(self).applied()),
            !aggregate ==> (final(self).buffered().len() == 0 && !final(self).applied() && r.1
                == (old(self).applied() && old(self).apply_hooked())),
            !aggregate && old(self).buffered().len() > 0 && old(self).update_hooked() ==> (r.0
                matches Some(s) && s@ == ops_json(old(self).buffered())),
            !aggregate && (old(self).buffered().len() == 0 || !old(self).update_hooked())
                ==> r.0 is None,
    {
        self.aggregate_hooks = aggregate;
        if !aggregate {
            let p = self.flush_update();
            let b = self.flush_apply();
            (p, b)
        } else {
            (None, false)
        }
    }
}

/// Nothing observable moved between the two states: same values, same
/// slot count, same buffer, same pending flag, same hooks, same mode.
pub open spec fn unchanged_observables(pre: List, post: List) -> bool {
    &&& post.values() == pre.values()
    &&& post.slots() == pre.slots()
    &&& post.buffered() == pre.buffered()
    &&& post.applied() == pre.applied()
    &&& post.update_hooked() == pre.update_hooked()
    &&& post.apply_hooked() == pre.apply_hooked()
    &&& post.aggregating() == pre.aggregating()
}

/// How one update-side flush relates the states and its payload: under
/// aggregation nothing moves; otherwise the buffer is drained, and its
/// JSON goes to the update hook exactly when it was non-empty and the
/// hook is registered.
pub open spec fn update_flush(pre: List, post: List, p: Option<String>) -> bool {
    &&& post.update_hooked() == pre.update_hooked()
    &&& post.apply_hooked() == pre.apply_hooked()
    &&& post.aggregating() == pre.aggregating()
    &&& post.applied() == pre.applied()
    &&& post.values() == pre.values()
    &&& post.slots() == pre.slots()
    &&& post.clock() == pre.clock()
    &&& if pre.aggregating() {
        p is None && post.buffered() == pre.buffered()
    } else {
        &&& post.buffered().len() == 0
        &&& if pre.buffered().len() > 0 && pre.update_hooked() {
            p matches Some(s) && s@ == ops_json(pre.buffered())
        } else {
            p is None
        }
    }
}

/// How one apply-side flush relates the states and its outcome: under
/// aggregation nothing moves; otherwise the flag comes down, and the
/// apply hook fires exactly when it was up and the hook is registered.
pub open spec fn apply_flush(pre: List, post: List, fire: bool) -> bool {
    &&& post.update_hooked() == pre.update_hooked()
    &&& post.apply_hooked() == pre.apply_hooked()
    &&& post.aggregating() == pre.aggregating()
    &&& post.values() == pre.values()
    &&& post.slots() == pre.slots()
    &&& post.clock() == pre.clock()
    &&& post.buffered() == pre.buffered()
    &&& if pre.aggregating() {
        !fire && post.applied() == pre.applied()
    } else {
        !post.applied() && fire == (pre.applied() && pre.apply_hooked())
    }
}

/// What one successful mutation hands back. Under aggregation: nothing,
/// and with the update hook registered the one emitted operation joins
/// the buffer. Otherwise the buffer is drained and, with the hook
/// registered, its whole JSON — everything aggregated so far plus the one
/// operation just emitted, in emission order — is the payload.
pub open spec fn mutation_notice(pre: List, post: List, p: Option<String>) -> bool {
    &&& post.update_hooked() == pre.update_hooked()
    &&& post.apply_hooked() == pre.apply_hooked()
    &&& post.aggregating() == pre.aggregating()
    &&& post.applied() == pre.applied()
    &&& if pre.aggregating() {
        &&& p is None
        &&& if pre.update_hooked() {
            pre.buffered().is_prefix_of(post.buffered()) && post.buffered().len() == pre.buffered().len() + 1
        } else {
            post.buffered() == pre.buffered()
        }
    } else {
        &&& post.buffered().len() == 0
        &&& if pre.update_hooked() {
            p matches Some(s) && (exists|b: Seq<EngineOp>|
                pre.buffered().is_prefix_of(b) && b.len() == pre.buffered().len() + 1 && s@
                    == ops_json(b))
        } else {
            p is None
        }
    }
}

/// Aggregation accumulates: with aggregation on and the update hook
/// registered, every successful mutation extends the buffer by exactly
/// one operation, keeping everything already buffered in place, so after
/// two such mutations the original buffer is still a prefix and exactly
/// two operations have joined it; each further mutation extends it the
/// same way. The payload that ends the aggregation is the JSON of that
/// whole buffer (see `aggregate_hooks`).
pub proof fn lemma_aggregation_accumulates(s0: List, s1: List, s2: List)
    requires
        s0.aggregating(),
        s0.update_hooked(),
        mutation_notice(s0, s1, None),
        mutation_notice(s1, s2, None),
    ensures
        s0.buffered().is_prefix_of(s2.buffered()),
        s2.buffered().len() == s0.buffered().len() + 2,
{
    assert(s0.buffered() =~= s1.buffered().subrange(0, s0.buffered().len() as int));
    assert(s1.buffered() =~= s2.buffered().subrange(0, s1.buffered().len() as int));
    assert forall|i: int| 0 <= i < s0.buffered().len() implies s0.buffered()[i] == s2.buffered()[i] by {
        assert(s0.buffered()[i] == s1.buffered()[i]);
    }
    assert(s0.buffered() =~= s2.buffered().subrange(0, s0.buffered().len() as int));
}

/// The apply signal fires at most once per burst: an apply-side flush
/// takes the pending flag down, so a second flush with no remote apply
/// in between finds nothing and stays quiet, however many applies
/// preceded the first one.
pub proof fn lemma_apply_signal_once(s0: List, s1: List, s2: List, f1: bool, f2: bool)
    requires
        !s0.aggregating(),
        apply_flush(s0, s1, f1),
        apply_flush(s1, s2, f2),
    ensures
        !f2,
{
}

/// Tombstone hiding: everything `to_vec` hands out under its success
/// contract lies in the accepted host subset — no element corresponds to
/// an engine tombstone or empty entry.
pub proof fn lemma_to_vec_accepted(l: List, out: Vec<HostValue>)
    requires
        out@.len() == l.values().len(),
        forall|i: int| 0 <= i < out@.len() ==> hview(#[trigger] out@[i]) == e2h(l.values()[i]),
        forall|i: int| 0 <= i < l.values().len() ==> eng_wf(#[trigger] l.values()[i]),
    ensures
        forall|i: int| 0 <= i < out@.len() ==> accepted(hview(#[trigger] out@[i])),
{
    assert forall|i: int| 0 <= i < out@.len() implies accepted(hview(#[trigger] out@[i])) by {
        crate::values::lemma_e2h_accepted(l.values()[i]);
    }
}

} // verus!
