use vstd::prelude::*;

verus! {

/// The identifiers held by a list of strings.
pub open spec fn ids(v: Seq<String>) -> Set<Seq<char>> {
    Set::new(|x: Seq<char>| exists|i: int| 0 <= i < v.len() && v[i]@ == x)
}

/// No identifier appears twice in the list.
pub open spec fn distinct_ids(v: Seq<String>) -> bool {
    forall|i: int, j: int| 0 <= i < v.len() && 0 <= j < v.len() && i != j ==> v[i]@ != v[j]@
}

/// Whether `x` is among the identifiers of `v`.
pub fn contains_id(v: &Vec<String>, x: &String) -> (r: bool)
    ensures
        r == ids(v@).contains(x@),
{
    let mut i: usize = 0;
    while i < v.len()
        invariant
            i <= v.len(),
            forall|k: int| 0 <= k < i ==> v@[k]@ != x@,
        decreases v.len() - i,
    {
        if v[i] == *x {
            assert(ids(v@).contains(x@)) by {
                assert(v@[i as int]@ == x@);
            }
            return true;
        }
        i = i + 1;
    }
    false
}

/// Adds `x` to `v` unless it is already there.
pub fn insert_id(v: &mut Vec<String>, x: String)
    requires
        distinct_ids(old(v)@),
    ensures
        distinct_ids(final(v)@),
        ids(final(v)@) == ids(old(v)@).insert(x@),
{
    if !contains_id(v, &x) {
        let ghost x_view = x@;
        v.push(x);
        proof {
            assert(final(v)@ == old(v)@.push(x));
        }
        assert(ids(v@) =~= ids(old(v)@).insert(x_view)) by {
            assert(v@[v@.len() - 1]@ == x_view);
            assert forall|y: Seq<char>| ids(old(v)@).contains(y) implies ids(v@).contains(y) by {
                let k = choose|k: int| 0 <= k < old(v)@.len() && old(v)@[k]@ == y;
                assert(v@[k] == old(v)@[k]);
            }
        }
    } else {
        assert(ids(v@) =~= ids(old(v)@).insert(x@));
    }
}

/// The distinct identifiers of `items`, each once.
pub fn dedup_ids(items: &Vec<String>) -> (r: Vec<String>)
    ensures
        distinct_ids(r@),
        ids(r@) == ids(items@),
{
    let mut out: Vec<String> = Vec::new();
    let mut i: usize = 0;
    while i < items.len()
        invariant
            i <= items.len(),
            distinct_ids(out@),
            ids(out@) == ids(items@.take(i as int)),
        decreases items.len() - i,
    {
        proof {
            assert(items@.take(i + 1) == items@.take(i as int).push(items@[i as int]));
        }
        insert_id(&mut out, items[i].clone());
        proof {
            lemma_ids_push(items@.take(i as int), items@[i as int]);
        }
        i = i + 1;
    }
    proof {
        assert(items@.take(items.len() as int) =~= items@);
    }
    out
}

pub proof fn lemma_ids_push(v: Seq<String>, x: String)
    ensures
        ids(v.push(x)) == ids(v).insert(x@),
{
    let w = v.push(x);
    assert(w[v.len() as int] == x);
    assert forall|y: Seq<char>| ids(v).contains(y) implies ids(w).contains(y) by {
        let k = choose|k: int| 0 <= k < v.len() && v[k]@ == y;
        assert(w[k] == v[k]);
    }
    assert forall|y: Seq<char>| ids(w).contains(y) implies ids(v).insert(x@).contains(y) by {
        let k = choose|k: int| 0 <= k < w.len() && w[k]@ == y;
        if k < v.len() {
            assert(w[k] == v[k]);
        }
    }
    assert(ids(w) =~= ids(v).insert(x@));
}

} // verus!
