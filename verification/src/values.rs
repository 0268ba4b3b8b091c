//! The value models on both sides of the adapter, and the verified
//! marshaller between them.
//!
//! A host value is a dynamically typed datum recognized at the boundary:
//! a string, a number, a boolean, a true array, or anything else (kept as
//! its type name and textual dump). An engine value is what the list engine
//! stores: the same scalars and nested lists, plus the two internal cases
//! `Empty` and `Tombstone` that must never cross back to the host.
//!
//! Host numbers travel through this library as their canonical decimal
//! rendering (the shortest text that parses back to the same 64-bit float),
//! produced at the boundary; the engine holds the float itself.

use vstd::prelude::*;

verus! {

/// A host value at the adapter boundary, as plain data.
pub enum HostValue {
    /// A host string.
    Str(String),
    /// A host number, as its canonical decimal rendering.
    Num(String),
    /// A host boolean.
    Bool(bool),
    /// A true host array.
    Arr(Vec<HostValue>),
    /// Any other host value: its type name and a textual dump, kept only
    /// to render the rejection message.
    Other { kind: String, dump: String },
}

/// A stored engine value, as plain data. Mirrors the engine's own variant.
pub enum EngineValue {
    /// A string.
    Str(String),
    /// A float, as its canonical decimal rendering.
    Float(String),
    /// A boolean.
    Bool(bool),
    /// A nested list of values.
    List(Vec<EngineValue>),
    /// The engine's deletion marker; internal, never shown to the host.
    Tombstone,
    /// The engine's placeholder value; internal, never shown to the host.
    Empty,
}

/// Mathematical model of a host value.
pub enum HostVal {
    Str(Seq<char>),
    Num(Seq<char>),
    Bool(bool),
    Arr(Seq<HostVal>),
    Other { kind: Seq<char>, dump: Seq<char> },
}

/// Mathematical model of an engine value.
pub enum EngVal {
    Str(Seq<char>),
    Float(Seq<char>),
    Bool(bool),
    List(Seq<EngVal>),
    Tombstone,
    Empty,
}

/// Model of a host value.
pub open spec fn hview(v: HostValue) -> HostVal
    decreases v,
{
    match v {
        HostValue::Str(s) => HostVal::Str(s@),
        HostValue::Num(s) => HostVal::Num(s@),
        HostValue::Bool(b) => HostVal::Bool(b),
        HostValue::Arr(vs) => HostVal::Arr(
            Seq::new(
                vs@.len(),
                |i: int|
                    if 0 <= i < vs@.len() {
                        hview(vs@[i])
                    } else {
                        HostVal::Bool(false)
                    },
            ),
        ),
        HostValue::Other { kind, dump } => HostVal::Other { kind: kind@, dump: dump@ },
    }
}

/// Model of an engine value.
pub open spec fn eview(v: EngineValue) -> EngVal
    decreases v,
{
    match v {
        EngineValue::Str(s) => EngVal::Str(s@),
        EngineValue::Float(s) => EngVal::Float(s@),
        EngineValue::Bool(b) => EngVal::Bool(b),
        EngineValue::List(vs) => EngVal::List(
            Seq::new(
                vs@.len(),
                |i: int|
                    if 0 <= i < vs@.len() {
                        eview(vs@[i])
                    } else {
                        EngVal::Empty
                    },
            ),
        ),
        EngineValue::Tombstone => EngVal::Tombstone,
        EngineValue::Empty => EngVal::Empty,
    }
}

/// Whether `s` is the canonical decimal rendering of the host number it
/// denotes: parsing it as the engine's 64-bit float and rendering that
/// float back yields `s` itself. Such texts cross the engine unchanged.
pub uninterp spec fn num_canon(s: Seq<char>) -> bool;

/// Relies on `str::parse` to the engine's 64-bit float (the field type of
/// `mycelial_crdt::list::Value::Float`) and on the standard shortest
/// round-trip rendering of that float: both are functions of `s` alone, so
/// canonicality is one too.
#[verifier::external_body]
pub(crate) fn check_num_canon(s: &str) -> (b: bool)
    ensures
        b == num_canon(s@),
{
    match s.parse().map(mycelial_crdt::list::Value::<()>::Float) {
        Ok(mycelial_crdt::list::Value::Float(f)) => format!("{}", f).as_str() == s,
        _ => false,
    }
}

/// A host value the marshaller accepts: no `Other` anywhere, and every
/// number in canonical rendering.
pub open spec fn accepted(h: HostVal) -> bool
    decreases h,
{
    match h {
        HostVal::Str(_) => true,
        HostVal::Num(s) => num_canon(s),
        HostVal::Bool(_) => true,
        HostVal::Arr(vs) => forall|i: int| 0 <= i < vs.len() ==> accepted(#[trigger] vs[i]),
        HostVal::Other { .. } => false,
    }
}

/// An engine value fit for the boundary: no `Tombstone` or `Empty`
/// anywhere, and every float text canonical.
pub open spec fn eng_wf(e: EngVal) -> bool
    decreases e,
{
    match e {
        EngVal::Str(_) => true,
        EngVal::Float(s) => num_canon(s),
        EngVal::Bool(_) => true,
        EngVal::List(vs) => forall|i: int| 0 <= i < vs.len() ==> eng_wf(#[trigger] vs[i]),
        EngVal::Tombstone => false,
        EngVal::Empty => false,
    }
}

/// Host-to-engine conversion on models; meaningful on accepted values.
pub open spec fn h2e(h: HostVal) -> EngVal
    decreases h,
{
    match h {
        HostVal::Str(s) => EngVal::Str(s),
        HostVal::Num(s) => EngVal::Float(s),
        HostVal::Bool(b) => EngVal::Bool(b),
        HostVal::Arr(vs) => EngVal::List(
            Seq::new(
                vs.len(),
                |i: int|
                    if 0 <= i < vs.len() {
                        h2e(vs[i])
                    } else {
                        EngVal::Empty
                    },
            ),
        ),
        HostVal::Other { .. } => EngVal::Empty,
    }
}

/// Engine-to-host conversion on models; meaningful on boundary-fit values.
pub open spec fn e2h(e: EngVal) -> HostVal
    decreases e,
{
    match e {
        EngVal::Str(s) => HostVal::Str(s),
        EngVal::Float(s) => HostVal::Num(s),
        EngVal::Bool(b) => HostVal::Bool(b),
        EngVal::List(vs) => HostVal::Arr(
            Seq::new(
                vs.len(),
                |i: int|
                    if 0 <= i < vs.len() {
                        e2h(vs[i])
                    } else {
                        HostVal::Bool(false)
                    },
            ),
        ),
        EngVal::Tombstone => HostVal::Bool(false),
        EngVal::Empty => HostVal::Bool(false),
    }
}

/// Marshalling to the engine keeps a value fit for the boundary.
pub proof fn lemma_h2e_wf(h: HostVal)
    requires
        accepted(h),
    ensures
        eng_wf(h2e(h)),
    decreases h,
{
    match h {
        HostVal::Arr(vs) => {
            match h2e(h) {
                EngVal::List(es) => {
                    assert forall|i: int| 0 <= i < es.len() implies eng_wf(#[trigger] es[i]) by {
                        assert(es[i] == h2e(vs[i]));
                        lemma_h2e_wf(vs[i]);
                    }
                },
                _ => {
                    assert(false);
                },
            }
        },
        _ => {},
    }
}

/// Marshalling back from the engine yields an accepted host value:
/// in particular, nothing that corresponds to a tombstone or an empty
/// engine entry.
pub proof fn lemma_e2h_accepted(e: EngVal)
    requires
        eng_wf(e),
    ensures
        accepted(e2h(e)),
    decreases e,
{
    match e {
        EngVal::List(vs) => {
            match e2h(e) {
                HostVal::Arr(hs) => {
                    assert forall|i: int| 0 <= i < hs.len() implies accepted(#[trigger] hs[i]) by {
                        assert(hs[i] == e2h(vs[i]));
                        lemma_e2h_accepted(vs[i]);
                    }
                },
                _ => {
                    assert(false);
                },
            }
        },
        _ => {},
    }
}

/// Round trip: an accepted host value survives marshalling to the engine
/// and back unchanged.
pub proof fn lemma_round_trip(h: HostVal)
    requires
        accepted(h),
    ensures
        e2h(h2e(h)) == h,
    decreases h,
{
    match h {
        HostVal::Arr(vs) => {
            match h2e(h) {
                EngVal::List(es) => {
                    match e2h(h2e(h)) {
                        HostVal::Arr(hs) => {
                            assert forall|i: int| 0 <= i < hs.len() implies #[trigger] hs[i]
                                == vs[i] by {
                                assert(es[i] == h2e(vs[i]));
                                assert(hs[i] == e2h(es[i]));
                                lemma_round_trip(vs[i]);
                            }
                            assert(hs =~= vs);
                        },
                        _ => {
                            assert(false);
                        },
                    }
                },
                _ => {
                    assert(false);
                },
            }
        },
        _ => {},
    }
}

} // verus!
