//! The executable marshaller: host values to engine values and back.
//!
//! Inspection order on the way in follows the boundary contract: string,
//! number, boolean, true array; anything else is rejected with a
//! `ValueError` naming the host type and its dump. On the way out the
//! engine's internal cases (`Tombstone`, `Empty`) are rejected as
//! unsupported variants; the iteration surface never hands them over at
//! the top level, so they can only be met nested inside a remote value.

use vstd::prelude::*;

use crate::errors::ListError;
use crate::values::{
    accepted, check_num_canon, e2h, eng_wf, eview, h2e, hview, num_canon, EngVal, EngineValue,
    HostVal, HostValue,
};

verus! {

/// Rejection reason for a host value that is not string, number, boolean
/// or true array.
pub open spec fn bad_kind_msg(kind: Seq<char>, dump: Seq<char>) -> Seq<char> {
    "unsupported value of type '"@ + kind + "': "@ + dump
}

/// Rejection reason for a number text that is not canonical.
pub open spec fn bad_num_msg(s: Seq<char>) -> Seq<char> {
    "unsupported number text: "@ + s
}

/// Rejection reason for the engine's internal cases.
pub open spec fn internal_value_msg() -> Seq<char> {
    "unsupported: internal engine value"@
}

/// The smallest index of an unaccepted element; meaningful only when one
/// exists.
pub open spec fn first_bad(vs: Seq<HostVal>) -> int {
    choose|i: int|
        0 <= i < vs.len() && !accepted(vs[i]) && (forall|j: int|
            0 <= j < i ==> accepted(#[trigger] vs[j]))
}

/// The smallest index is what `first_bad` picks.
pub proof fn lemma_first_bad(vs: Seq<HostVal>, i: int)
    requires
        0 <= i < vs.len(),
        !accepted(vs[i]),
        forall|j: int| 0 <= j < i ==> accepted(#[trigger] vs[j]),
    ensures
        first_bad(vs) == i,
{
    let k = first_bad(vs);
    assert(0 <= k < vs.len() && !accepted(vs[k]) && (forall|j: int|
        0 <= j < k ==> accepted(#[trigger] vs[j]))) by {
        assert(0 <= i < vs.len() && !accepted(vs[i]) && (forall|j: int|
            0 <= j < i ==> accepted(#[trigger] vs[j])));
    }
}

/// Why a host value is rejected: the reason of its first unacceptable
/// node, depth first. Meaningful only when the value is not accepted.
pub open spec fn reject_msg(h: HostVal) -> Seq<char>
    decreases h,
{
    match h {
        HostVal::Num(s) => bad_num_msg(s),
        HostVal::Arr(vs) => {
            let i = first_bad(vs);
            if 0 <= i < vs.len() {
                reject_msg(vs[i])
            } else {
                Seq::empty()
            }
        },
        HostVal::Other { kind, dump } => bad_kind_msg(kind, dump),
        _ => Seq::empty(),
    }
}

/// Convert a host value for the engine.
///
/// Succeeds exactly on the accepted subset; the result is the model
/// conversion of the input. A rejected value yields a `ValueError`
/// carrying the reason of its first unacceptable node.
pub fn host_to_engine(v: &HostValue) -> (r: Result<EngineValue, ListError>)
    ensures
        r is Ok <==> accepted(hview(*v)),
        r matches Ok(ev) ==> eview(ev) == h2e(hview(*v)),
        r matches Err(e) ==> e matches ListError::ValueError(m) && m@ == reject_msg(hview(*v)),
    decreases *v,
{
    match v {
        HostValue::Str(s) => Ok(EngineValue::Str(s.clone())),
        HostValue::Num(s) => {
            if check_num_canon(s.as_str()) {
                Ok(EngineValue::Float(s.clone()))
            } else {
                let mut m = String::from_str("unsupported number text: ");
                m.append(s.as_str());
                Err(ListError::ValueError(m))
            }
        },
        HostValue::Bool(b) => Ok(EngineValue::Bool(*b)),
        HostValue::Arr(vs) => {
            let ghost hvs = (match hview(*v) {
                HostVal::Arr(s) => s,
                _ => Seq::empty(),
            });
            let mut out: Vec<EngineValue> = Vec::new();
            let mut i: usize = 0;
            while i < vs.len()
                invariant
                    *v == HostValue::Arr(*vs),
                    i <= vs.len(),
                    out@.len() == i,
                    hview(*v) == HostVal::Arr(hvs),
                    hvs.len() == vs@.len(),
                    forall|j: int| 0 <= j < vs@.len() ==> hvs[j] == hview(#[trigger] vs@[j]),
                    forall|j: int| 0 <= j < i ==> accepted(#[trigger] hvs[j]),
                    forall|j: int|
                        0 <= j < i ==> eview(#[trigger] out@[j]) == h2e(hvs[j]),
                decreases vs.len() - i,
            {
                proof {
                    broadcast use vstd::std_specs::vec::group_vec_axioms;

                    assert(*v == HostValue::Arr(*vs));
                    assert(decreases_to!(*v => *vs));
                    assert(decreases_to!(*vs => vs@[i as int]));
                }
                match host_to_engine(&vs[i]) {
                    Ok(ev) => {
                        out.push(ev);
                    },
                    Err(e) => {
                        proof {
                            lemma_first_bad(hvs, i as int);
                        }
                        return Err(e);
                    },
                }
                i += 1;
            }
            proof {
                match h2e(hview(*v)) {
                    EngVal::List(es) => {
                        assert forall|j: int| 0 <= j < es.len() implies eview(out@[j])
                            == #[trigger] es[j] by {
                            assert(es[j] == h2e(hvs[j]));
                        }
                        match eview(EngineValue::List(out)) {
                            EngVal::List(ws) => {
                                assert forall|j: int| 0 <= j < ws.len() implies #[trigger] ws[j]
                                    == es[j] by {
                                    assert(ws[j] == eview(out@[j]));
                                }
                                assert(ws =~= es);
                            },
                            _ => {
                                assert(false);
                            },
                        }
                    },
                    _ => {
                        assert(false);
                    },
                }
            }
            Ok(EngineValue::List(out))
        },
        HostValue::Other { kind, dump } => {
            let mut m = String::from_str("unsupported value of type '");
            m.append(kind.as_str());
            m.append("': ");
            m.append(dump.as_str());
            Err(ListError::ValueError(m))
        },
    }
}

/// The smallest index of an element unfit for the boundary; meaningful
/// only when one exists.
pub open spec fn eng_first_bad(vs: Seq<EngVal>) -> int {
    choose|i: int|
        0 <= i < vs.len() && !eng_wf(vs[i]) && (forall|j: int|
            0 <= j < i ==> eng_wf(#[trigger] vs[j]))
}

/// The smallest index is what `eng_first_bad` picks.
pub proof fn lemma_eng_first_bad(vs: Seq<EngVal>, i: int)
    requires
        0 <= i < vs.len(),
        !eng_wf(vs[i]),
        forall|j: int| 0 <= j < i ==> eng_wf(#[trigger] vs[j]),
    ensures
        eng_first_bad(vs) == i,
{
    let k = eng_first_bad(vs);
    assert(0 <= k < vs.len() && !eng_wf(vs[k]) && (forall|j: int|
        0 <= j < k ==> eng_wf(#[trigger] vs[j]))) by {
        assert(0 <= i < vs.len() && !eng_wf(vs[i]) && (forall|j: int|
            0 <= j < i ==> eng_wf(#[trigger] vs[j])));
    }
}

/// Why an engine value cannot cross to the host: the reason of its first
/// unfit node, depth first. Meaningful only when the value is unfit.
pub open spec fn eng_reject_msg(e: EngVal) -> Seq<char>
    decreases e,
{
    match e {
        EngVal::Float(s) => bad_num_msg(s),
        EngVal::List(vs) => {
            let i = eng_first_bad(vs);
            if 0 <= i < vs.len() {
                eng_reject_msg(vs[i])
            } else {
                Seq::empty()
            }
        },
        EngVal::Tombstone => internal_value_msg(),
        EngVal::Empty => internal_value_msg(),
        _ => Seq::empty(),
    }
}

/// Convert an engine value for the host.
///
/// Succeeds exactly on values fit for the boundary; the result is the
/// model conversion of the input. The boundary contract treats the
/// engine's internal cases as unreachable — the iteration surface filters
/// them at the top level — but they can still sit nested inside a
/// remotely applied value, so rather than carry that reachability as a
/// precondition this conversion stays total: an internal case yields a
/// `ValueError` naming it instead of crossing over or panicking.
pub fn engine_to_host(v: &EngineValue) -> (r: Result<HostValue, ListError>)
    ensures
        r is Ok <==> eng_wf(eview(*v)),
        r matches Ok(h) ==> hview(h) == e2h(eview(*v)),
        r matches Err(e) ==> e matches ListError::ValueError(m) && m@ == eng_reject_msg(eview(*v)),
    decreases *v,
{
    match v {
        EngineValue::Str(s) => Ok(HostValue::Str(s.clone())),
        EngineValue::Float(s) => {
            if check_num_canon(s.as_str()) {
                Ok(HostValue::Num(s.clone()))
            } else {
                let mut m = String::from_str("unsupported number text: ");
                m.append(s.as_str());
                Err(ListError::ValueError(m))
            }
        },
        EngineValue::Bool(b) => Ok(HostValue::Bool(*b)),
        EngineValue::List(vs) => {
            let ghost evs = (match eview(*v) {
                EngVal::List(s) => s,
                _ => Seq::empty(),
            });
            let mut out: Vec<HostValue> = Vec::new();
            let mut i: usize = 0;
            while i < vs.len()
                invariant
                    *v == EngineValue::List(*vs),
                    i <= vs.len(),
                    out@.len() == i,
                    eview(*v) == EngVal::List(evs),
                    evs.len() == vs@.len(),
                    forall|j: int| 0 <= j < vs@.len() ==> evs[j] == eview(#[trigger] vs@[j]),
                    forall|j: int| 0 <= j < i ==> eng_wf(#[trigger] evs[j]),
                    forall|j: int|
                        0 <= j < i ==> hview(#[trigger] out@[j]) == e2h(evs[j]),
                decreases vs.len() - i,
            {
                proof {
                    broadcast use vstd::std_specs::vec::group_vec_axioms;

                    assert(*v == EngineValue::List(*vs));
                    assert(decreases_to!(*v => *vs));
                    assert(decreases_to!(*vs => vs@[i as int]));
                }
                match engine_to_host(&vs[i]) {
                    Ok(h) => {
                        out.push(h);
                    },
                    Err(e) => {
                        proof {
                            lemma_eng_first_bad(evs, i as int);
                        }
                        return Err(e);
                    },
                }
                i += 1;
            }
            proof {
                match e2h(eview(*v)) {
                    HostVal::Arr(hs) => {
                        assert forall|j: int| 0 <= j < hs.len() implies hview(out@[j])
                            == #[trigger] hs[j] by {
                            assert(hs[j] == e2h(evs[j]));
                        }
                        match hview(HostValue::Arr(out)) {
                            HostVal::Arr(ws) => {
                                assert forall|j: int| 0 <= j < ws.len() implies #[trigger] ws[j]
                                    == hs[j] by {
                                    assert(ws[j] == hview(out@[j]));
                                }
                                assert(ws =~= hs);
                            },
                            _ => {
                                assert(false);
                            },
                        }
                    },
                    _ => {
                        assert(false);
                    },
                }
            }
            Ok(HostValue::Arr(out))
        },
        EngineValue::Tombstone => {
            Err(ListError::ValueError(String::from_str("unsupported: internal engine value")))
        },
        EngineValue::Empty => {
            Err(ListError::ValueError(String::from_str("unsupported: internal engine value")))
        },
    }
}

} // verus!
