//! Laws relating several operations of the control-plane, stated over
//! the mathematical views their contracts use.
use vstd::prelude::*;

verus! {

/// Law: for any blacklist state `m` and address `a`, flagging `a` and
/// then clearing it (the view taken by `set_blacklist(a, true)` followed
/// by `set_blacklist(a, false)`) is the state that records exactly one
/// entry for `a`, holding `false`: the same as clearing alone; every
/// other address keeps its status, and the number of recorded addresses
/// grows only if `a` had no record before, and then by one.
pub proof fn lemma_blacklist_toggle(m: Map<Seq<u8>, bool>, a: Seq<u8>)
    ensures
        m.insert(a, true).insert(a, false) == m.insert(a, false),
        m.insert(a, true).insert(a, false).dom() == m.dom().insert(a),
        m.insert(a, true).insert(a, false)[a] == false,
        forall|b: Seq<u8>| b != a && m.dom().contains(b)
            ==> #[trigger] m.insert(a, true).insert(a, false)[b] == m[b],
        m.dom().finite() ==> m.insert(a, true).insert(a, false).dom().len() == m.dom().len() + (
        if m.dom().contains(a) {
            0int
        } else {
            1int
        }),
{
    assert(m.insert(a, true).insert(a, false) =~= m.insert(a, false));
    assert(m.insert(a, true).insert(a, false).dom() =~= m.dom().insert(a));
}

} // verus!
