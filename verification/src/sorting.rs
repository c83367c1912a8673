use vstd::prelude::*;

verus! {

/// A sequence is ascending when no element is greater than one after it.
pub open spec fn is_ascending(s: Seq<i64>) -> bool {
    forall|i: int, j: int| 0 <= i <= j < s.len() ==> s[i] <= s[j]
}

/// Returns the values of `values` in ascending order: the result is
/// ascending and holds each value exactly as many times as `values` does.
pub fn sort_ascending(values: &Vec<i64>) -> (sorted: Vec<i64>)
    ensures
        is_ascending(sorted@),
        sorted@.to_multiset() == values@.to_multiset(),
{
    let mut sorted: Vec<i64> = Vec::new();
    let mut i: usize = 0;
    assert(values@.take(0) =~= sorted@);
    while i < values.len()
        invariant
            i <= values.len(),
            is_ascending(sorted@),
            sorted@.to_multiset() == values@.take(i as int).to_multiset(),
        decreases values.len() - i,
    {
        let x = values[i];
        let mut pos: usize = 0;
        while pos < sorted.len() && sorted[pos] <= x
            invariant
                pos <= sorted.len(),
                forall|k: int| 0 <= k < pos ==> sorted@[k] <= x,
            decreases sorted.len() - pos,
        {
            pos = pos + 1;
        }
        let ghost before = sorted@;
        proof {
            assert forall|k: int| pos <= k < before.len() implies x <= before[k] by {
                assert(before[pos as int] <= before[k]);
            }
        }
        sorted.insert(pos, x);
        assert(sorted@ =~= before.insert(pos as int, x));
        assert(is_ascending(sorted@)) by {
            assert forall|a: int, b: int| 0 <= a <= b < sorted@.len() implies sorted@[a]
                <= sorted@[b] by {
                if a < pos && b > pos {
                    assert(sorted@[a] == before[a]);
                    assert(sorted@[b] == before[b - 1]);
                    assert(before[a] <= before[b - 1]);
                }
            }
        }
        assert(values@.take(i + 1) =~= values@.take(i as int).push(x));
        proof {
            vstd::seq_lib::to_multiset_insert(before, pos as int, x);
            vstd::seq_lib::to_multiset_build(values@.take(i as int), x);
        }
        i = i + 1;
    }
    assert(values@.take(values.len() as int) =~= values@);
    sorted
}

} // verus!
