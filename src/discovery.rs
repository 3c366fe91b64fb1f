use vstd::prelude::*;
use crate::idset::{distinct_ids, ids, insert_id, lemma_ids_push};

verus! {

/// Number of query rounds after which the artists that still fail are given up.
pub const MAX_ATTEMPTS: u32 = 13;

/// The album identifiers gathered from the successful outcomes of one round.
pub open spec fn round_found(outcomes: Seq<Option<Vec<String>>>) -> Set<Seq<char>> {
    Set::new(
        |x: Seq<char>|
            exists|i: int, j: int|
                0 <= i < outcomes.len() && outcomes[i] is Some && 0 <= j < outcomes[i]->0@.len()
                    && outcomes[i]->0@[j]@ == x,
    )
}

/// The artists of a round whose query failed.
pub open spec fn round_failed(pending: Seq<String>, outcomes: Seq<Option<Vec<String>>>) -> Set<
    Seq<char>,
> {
    Set::new(
        |x: Seq<char>|
            exists|i: int| 0 <= i < pending.len() && outcomes[i] is None && pending[i]@ == x,
    )
}

/// Discovery of every album reachable from a set of artists: each round queries
/// the artists still pending, keeps the album identifiers of the queries that
/// succeeded, and retries only the artists whose query failed.
pub struct Discovery {
    pending: Vec<String>,
    found: Vec<String>,
    attempt: u32,
}

impl Discovery {
    /// The artists to query in the next round, in the order outcomes are expected.
    pub closed spec fn pending_list(&self) -> Seq<String> {
        self.pending@
    }

    /// The album identifiers gathered so far.
    pub closed spec fn found_set(&self) -> Set<Seq<char>> {
        ids(self.found@)
    }

    /// The number of rounds recorded so far.
    pub closed spec fn attempts(&self) -> nat {
        self.attempt as nat
    }

    pub closed spec fn wf(&self) -> bool {
        distinct_ids(self.pending@) && distinct_ids(self.found@) && self.attempt <= MAX_ATTEMPTS
    }

    /// No round is left to run: nothing is pending, or the attempts are used up.
    pub open spec fn done(&self) -> bool {
        self.pending_list().len() == 0 || self.attempts() == MAX_ATTEMPTS
    }

    /// Whether the discovery ends without a result: no artist was ever queried,
    /// or every attempt was used and not one album identifier was gathered.
    pub open spec fn failed(&self) -> bool {
        self.attempts() == 0 || (self.found_set().is_empty() && self.pending_list().len() > 0)
    }

    /// Starts a discovery over the given artists, duplicates collapsed.
    pub fn new(artists: &Vec<String>) -> (r: Self)
        ensures
            r.wf(),
            ids(r.pending_list()) == ids(artists@),
            r.found_set().is_empty(),
            r.attempts() == 0,
    {
        let pending = crate::idset::dedup_ids(artists);
        let r = Discovery { pending, found: Vec::new(), attempt: 0 };
        assert(r.found_set() =~= Set::empty());
        r
    }

    pub fn is_done(&self) -> (r: bool)
        requires
            self.wf(),
        ensures
            r == self.done(),
    {
        self.pending.len() == 0 || self.attempt == MAX_ATTEMPTS
    }

    /// The artists to query in the next round.
    pub fn pending(&self) -> (r: &Vec<String>)
        ensures
            r@ == self.pending_list(),
    {
        &self.pending
    }

    /// Records the outcomes of one round, `outcomes[i]` being that of the
    /// `i`-th pending artist: its album identifiers, or `None` when its query failed.
    pub fn record_round(&mut self, outcomes: &Vec<Option<Vec<String>>>)
        requires
            old(self).wf(),
            !old(self).done(),
            outcomes@.len() == old(self).pending_list().len(),
        ensures
            final(self).wf(),
            final(self).attempts() == old(self).attempts() + 1,
            final(self).found_set() == old(self).found_set().union(round_found(outcomes@)),
            ids(final(self).pending_list()) == round_failed(old(self).pending_list(), outcomes@),
    {
        let mut retry: Vec<String> = Vec::new();
        let mut i: usize = 0;
        let ghost found0 = ids(self.found@);
        while i < outcomes.len()
            invariant
                i <= outcomes.len(),
                outcomes@.len() == self.pending@.len(),
                self.pending@ == old(self).pending@,
                self.attempt == old(self).attempt,
                distinct_ids(self.found@),
                distinct_ids(retry@),
                found0 == ids(old(self).found@),
                ids(self.found@) == found0.union(round_found(outcomes@.take(i as int))),
                ids(retry@) == round_failed(self.pending@.take(i as int), outcomes@.take(i as int)),
            decreases outcomes.len() - i,
        {
            let ghost before = ids(self.found@);
            let ghost prefix = outcomes@.take(i as int);
            let ghost next = outcomes@.take(i + 1);
            proof {
                assert(next == prefix.push(outcomes@[i as int]));
            }
            match &outcomes[i] {
                None => {
                    insert_id(&mut retry, self.pending[i].clone());
                    proof {
                        lemma_failed_step(self.pending@, outcomes@, i as int);
                        lemma_found_none(prefix, outcomes@[i as int]);
                    }
                },
                Some(album_ids) => {
                    let mut j: usize = 0;
                    while j < album_ids.len()
                        invariant
                            j <= album_ids.len(),
                            i < outcomes.len(),
                            outcomes@.len() == self.pending@.len(),
                            self.pending@ == old(self).pending@,
                            self.attempt == old(self).attempt,
                            distinct_ids(self.found@),
                            ids(self.found@) == before.union(ids(album_ids@.take(j as int))),
                        decreases album_ids.len() - j,
                    {
                        insert_id(&mut self.found, album_ids[j].clone());
                        proof {
                            assert(album_ids@.take(j + 1) == album_ids@.take(j as int).push(
                                album_ids@[j as int],
                            ));
                            lemma_ids_push(album_ids@.take(j as int), album_ids@[j as int]);
                            assert(ids(self.found@) =~= before.union(
                                ids(album_ids@.take(j + 1)),
                            ));
                        }
                        j = j + 1;
                    }
                    proof {
                        assert(album_ids@.take(album_ids.len() as int) =~= album_ids@);
                        lemma_found_some(prefix, outcomes@[i as int]);
                        lemma_failed_step(self.pending@, outcomes@, i as int);
                        assert(ids(self.found@) =~= found0.union(round_found(next)));
                    }
                },
            }
            i = i + 1;
        }
        proof {
            assert(outcomes@.take(outcomes@.len() as int) =~= outcomes@);
            assert(self.pending@.take(outcomes@.len() as int) =~= self.pending@);
        }
        self.pending = retry;
        self.attempt = self.attempt + 1;
    }

    /// The gathered album identifiers, or `None` when the discovery failed.
    pub fn finish(&self) -> (r: Option<Vec<String>>)
        requires
            self.wf(),
            self.done(),
        ensures
            r is None <==> self.failed(),
            r is Some ==> ids(r->0@) == self.found_set() && distinct_ids(r->0@),
    {
        if self.attempt == 0 || (self.found.len() == 0 && self.pending.len() > 0) {
            proof {
                if self.found@.len() == 0 {
                    assert(self.found_set() =~= Set::empty());
                }
            }
            None
        } else {
            proof {
                if self.found@.len() > 0 {
                    assert(self.found_set().contains(self.found@[0]@));
                }
            }
            Some(self.found.clone())
        }
    }
}

proof fn lemma_found_none(prefix: Seq<Option<Vec<String>>>, o: Option<Vec<String>>)
    requires
        o is None,
    ensures
        round_found(prefix.push(o)) == round_found(prefix),
{
    let w = prefix.push(o);
    assert forall|x: Seq<char>| round_found(w).contains(x) implies round_found(prefix).contains(
        x,
    ) by {
        let (i, j) = choose|i: int, j: int|
            0 <= i < w.len() && w[i] is Some && 0 <= j < w[i]->0@.len() && w[i]->0@[j]@ == x;
        assert(w[i] == prefix[i]);
    }
    assert forall|x: Seq<char>| round_found(prefix).contains(x) implies round_found(w).contains(
        x,
    ) by {
        let (i, j) = choose|i: int, j: int|
            0 <= i < prefix.len() && prefix[i] is Some && 0 <= j < prefix[i]->0@.len()
                && prefix[i]->0@[j]@ == x;
        assert(w[i] == prefix[i]);
    }
    assert(round_found(w) =~= round_found(prefix));
}

proof fn lemma_found_some(prefix: Seq<Option<Vec<String>>>, o: Option<Vec<String>>)
    requires
        o is Some,
    ensures
        round_found(prefix.push(o)) == round_found(prefix).union(ids(o->0@)),
{
    let w = prefix.push(o);
    let n = prefix.len() as int;
    assert(w[n] == o);
    assert forall|x: Seq<char>| round_found(w).contains(x) implies round_found(prefix).union(
        ids(o->0@),
    ).contains(x) by {
        let (i, j) = choose|i: int, j: int|
            0 <= i < w.len() && w[i] is Some && 0 <= j < w[i]->0@.len() && w[i]->0@[j]@ == x;
        if i < n {
            assert(w[i] == prefix[i]);
        }
    }
    assert forall|x: Seq<char>| round_found(prefix).union(ids(o->0@)).contains(
        x,
    ) implies round_found(w).contains(x) by {
        if round_found(prefix).contains(x) {
            let (i, j) = choose|i: int, j: int|
                0 <= i < prefix.len() && prefix[i] is Some && 0 <= j < prefix[i]->0@.len()
                    && prefix[i]->0@[j]@ == x;
            assert(w[i] == prefix[i]);
        } else {
            let j = choose|j: int| 0 <= j < o->0@.len() && o->0@[j]@ == x;
            assert(w[n]->0@[j]@ == x);
        }
    }
    assert(round_found(w) =~= round_found(prefix).union(ids(o->0@)));
}

proof fn lemma_failed_step(pending: Seq<String>, outcomes: Seq<Option<Vec<String>>>, i: int)
    requires
        0 <= i < pending.len(),
        pending.len() == outcomes.len(),
    ensures
        round_failed(pending.take(i + 1), outcomes.take(i + 1)) == if outcomes[i] is None {
            round_failed(pending.take(i), outcomes.take(i)).insert(pending[i]@)
        } else {
            round_failed(pending.take(i), outcomes.take(i))
        },
{
    let p0 = pending.take(i);
    let o0 = outcomes.take(i);
    let p1 = pending.take(i + 1);
    let o1 = outcomes.take(i + 1);
    let expected = if outcomes[i] is None {
        round_failed(p0, o0).insert(pending[i]@)
    } else {
        round_failed(p0, o0)
    };
    assert forall|x: Seq<char>| round_failed(p1, o1).contains(x) implies expected.contains(x) by {
        let k = choose|k: int| 0 <= k < p1.len() && o1[k] is None && p1[k]@ == x;
        if k < i {
            assert(p0[k] == p1[k] && o0[k] == o1[k]);
        }
    }
    assert forall|x: Seq<char>| expected.contains(x) implies round_failed(p1, o1).contains(x) by {
        if round_failed(p0, o0).contains(x) {
            let k = choose|k: int| 0 <= k < p0.len() && o0[k] is None && p0[k]@ == x;
            assert(p0[k] == p1[k] && o0[k] == o1[k]);
        } else {
            assert(p1[i] == pending[i] && o1[i] == outcomes[i]);
        }
    }
    assert(round_failed(p1, o1) =~= expected);
}

} // verus!
