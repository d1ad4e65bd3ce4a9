use vstd::prelude::*;

verus! {

/// Content of a combined image: every byte of the first image, then every
/// byte of the second.
pub open spec fn merged(first: Seq<u8>, second: Seq<u8>) -> Seq<u8> {
    first + second
}

/// Writes into `result` the concatenation of `first` and `second`.
/// Whatever `result` held before is discarded first, so merging the same two
/// images again gives the same bytes.
pub fn merge_ws_hex(first: &Vec<u8>, second: &Vec<u8>, result: &mut Vec<u8>)
    requires
        first@.len() + second@.len() <= usize::MAX,
    ensures
        final(result)@ == merged(first@, second@),
{
    result.clear();
    let mut i: usize = 0;
    while i < first.len()
        invariant
            i <= first@.len(),
            result@ == first@.subrange(0, i as int),
        decreases first@.len() - i,
    {
        result.push(first[i]);
        i = i + 1;
        assert(result@ =~= first@.subrange(0, i as int));
    }
    assert(first@.subrange(0, first@.len() as int) =~= first@);
    let mut j: usize = 0;
    while j < second.len()
        invariant
            j <= second@.len(),
            result@ == first@ + second@.subrange(0, j as int),
        decreases second@.len() - j,
    {
        result.push(second[j]);
        j = j + 1;
        assert(result@ =~= first@ + second@.subrange(0, j as int));
    }
    assert(second@.subrange(0, second@.len() as int) =~= second@);
}

/// Merging is associative: combining `a` with `b` and then with `c` gives the
/// same bytes as combining `a` with the combination of `b` and `c`.
pub proof fn lemma_merge_associative(a: Seq<u8>, b: Seq<u8>, c: Seq<u8>)
    ensures
        merged(merged(a, b), c) == merged(a, merged(b, c)),
{
    assert(merged(merged(a, b), c) =~= merged(a, merged(b, c)));
}

/// Merging is not commutative: when two images differ in their first byte,
/// merging them in the other order gives other bytes.
pub proof fn lemma_merge_order_matters(a: Seq<u8>, b: Seq<u8>)
    requires
        a.len() > 0,
        b.len() > 0,
        a[0] != b[0],
    ensures
        merged(a, b) != merged(b, a),
{
    assert(merged(a, b)[0] == a[0]);
    assert(merged(b, a)[0] == b[0]);
}

} // verus!
