use vstd::prelude::*;

verus! {

/// Neighbours returned for an unlabelled query.
pub const K_UNLABELLED: usize = 5;

/// Neighbours returned for a labelled query.
pub const K_LABELLED: usize = 15;

/// One search hit: the payload of an indexed entry and its distance to the
/// query, as the bit pattern of a non-negative single-precision value.
#[derive(Clone, Debug)]
pub struct Neighbor {
    pub payload: String,
    pub distance: u32,
}

impl View for Neighbor {
    type V = (Seq<char>, u32);

    open spec fn view(&self) -> (Seq<char>, u32) {
        (self.payload@, self.distance)
    }
}

/// The views of a sequence of hits.
pub open spec fn hits_view(s: Seq<Neighbor>) -> Seq<(Seq<char>, u32)> {
    s.map_values(|n: Neighbor| n@)
}

/// Distances never decrease along `s`.
pub open spec fn is_ascending(s: Seq<(Seq<char>, u32)>) -> bool {
    forall|i: int, j: int| 0 <= i <= j < s.len() ==> s[i].1 <= s[j].1
}

/// `x` put in front of the first element of `s` that is strictly farther than
/// it; appended when there is none.
pub open spec fn place(s: Seq<(Seq<char>, u32)>, x: (Seq<char>, u32)) -> Seq<(Seq<char>, u32)>
    decreases s.len(),
{
    if s.len() == 0 {
        seq![x]
    } else if x.1 < s[0].1 {
        seq![x] + s
    } else {
        seq![s[0]] + place(s.drop_first(), x)
    }
}

/// The hits of `s` ordered by distance, equal distances kept in their order
/// in `s`.
pub open spec fn by_distance(s: Seq<(Seq<char>, u32)>) -> Seq<(Seq<char>, u32)>
    decreases s.len(),
{
    if s.len() == 0 {
        s
    } else {
        place(by_distance(s.drop_last()), s.last())
    }
}

/// The `k` nearest hits of `s`, nearest first, ties in their order in `s`.
pub open spec fn nearest(s: Seq<(Seq<char>, u32)>, k: nat) -> Seq<(Seq<char>, u32)> {
    let sorted = by_distance(s);
    if k < sorted.len() {
        sorted.take(k as int)
    } else {
        sorted
    }
}

proof fn lemma_place_is_insert(s: Seq<(Seq<char>, u32)>, x: (Seq<char>, u32), j: int)
    requires
        0 <= j <= s.len(),
        forall|i: int| 0 <= i < j ==> s[i].1 <= x.1,
        j < s.len() ==> x.1 < s[j].1,
    ensures
        place(s, x) == s.insert(j, x),
    decreases s.len(),
{
    if s.len() == 0 {
        assert(s.insert(j, x) =~= seq![x]);
    } else if j == 0 {
        assert(s.insert(j, x) =~= seq![x] + s);
    } else {
        let t = s.drop_first();
        assert forall|i: int| 0 <= i < j - 1 implies t[i].1 <= x.1 by {
            assert(t[i] == s[i + 1]);
        }
        lemma_place_is_insert(t, x, j - 1);
        assert(s.insert(j, x) =~= seq![s[0]] + t.insert(j - 1, x));
    }
}

proof fn lemma_place_len_multiset(s: Seq<(Seq<char>, u32)>, x: (Seq<char>, u32))
    ensures
        place(s, x).len() == s.len() + 1,
        place(s, x).to_multiset() == s.to_multiset().insert(x),
    decreases s.len(),
{
    if s.len() == 0 {
        lemma_cons_multiset(s, x);
        assert(seq![x] + s =~= seq![x]);
    } else if x.1 < s[0].1 {
        lemma_cons_multiset(s, x);
    } else {
        let t = s.drop_first();
        lemma_place_len_multiset(t, x);
        lemma_cons_multiset(place(t, x), s[0]);
        lemma_cons_multiset(t, s[0]);
        assert(seq![s[0]] + t =~= s);
    }
}

proof fn lemma_cons_multiset(s: Seq<(Seq<char>, u32)>, x: (Seq<char>, u32))
    ensures
        (seq![x] + s).to_multiset() == s.to_multiset().insert(x),
{
    assert(seq![x] + s =~= s.insert(0, x));
    vstd::seq_lib::to_multiset_insert(s, 0, x);
}

proof fn lemma_place_ascending(s: Seq<(Seq<char>, u32)>, x: (Seq<char>, u32))
    requires
        is_ascending(s),
    ensures
        is_ascending(place(s, x)),
        place(s, x).len() == s.len() + 1,
        forall|i: int| 0 <= i < place(s, x).len() ==> (place(s, x)[i] == x || s.contains(place(s, x)[i])),
    decreases s.len(),
{
    lemma_place_len_multiset(s, x);
    if s.len() == 0 {
    } else if x.1 < s[0].1 {
        let r = seq![x] + s;
        assert forall|i: int| 0 <= i < r.len() implies (r[i] == x || s.contains(r[i])) by {
            if i > 0 {
                assert(r[i] == s[i - 1]);
            }
        }
    } else {
        let t = s.drop_first();
        assert(is_ascending(t)) by {
            assert forall|i: int, j: int| 0 <= i <= j < t.len() implies t[i].1 <= t[j].1 by {
                assert(t[i] == s[i + 1] && t[j] == s[j + 1]);
            }
        }
        lemma_place_ascending(t, x);
        let p = place(t, x);
        let r = seq![s[0]] + p;
        assert forall|i: int| 0 <= i < p.len() implies s[0].1 <= p[i].1 by {
            if p[i] != x {
                let k = choose|k: int| 0 <= k < t.len() && t[k] == p[i];
                assert(t[k] == s[k + 1]);
            }
        }
        assert forall|i: int| 0 <= i < r.len() implies (r[i] == x || s.contains(r[i])) by {
            if i == 0 {
                assert(s[0] == r[0]);
            } else {
                assert(r[i] == p[i - 1]);
                if p[i - 1] != x {
                    let k = choose|k: int| 0 <= k < t.len() && t[k] == p[i - 1];
                    assert(s[k + 1] == r[i]);
                }
            }
        }
        assert forall|i: int, j: int| 0 <= i <= j < r.len() implies r[i].1 <= r[j].1 by {
            if i > 0 {
                assert(r[i] == p[i - 1] && r[j] == p[j - 1]);
            } else if j > 0 {
                assert(r[j] == p[j - 1]);
            }
        }
    }
}

/// Ranking only reorders: it keeps every hit, as many times as it came.
pub proof fn lemma_by_distance_permutes(s: Seq<(Seq<char>, u32)>)
    ensures
        by_distance(s).len() == s.len(),
        by_distance(s).to_multiset() == s.to_multiset(),
    decreases s.len(),
{
    if s.len() > 0 {
        lemma_by_distance_permutes(s.drop_last());
        lemma_place_len_multiset(by_distance(s.drop_last()), s.last());
        s.drop_last().to_multiset_ensures();
        assert(s.drop_last().push(s.last()) =~= s);
    }
}

/// Ranked hits come nearest first.
pub proof fn lemma_by_distance_ascending(s: Seq<(Seq<char>, u32)>)
    ensures
        is_ascending(by_distance(s)),
    decreases s.len(),
{
    if s.len() > 0 {
        lemma_by_distance_ascending(s.drop_last());
        lemma_place_ascending(by_distance(s.drop_last()), s.last());
    }
}

/// The `k` nearest hits are ascending by distance, and there are `k` of them
/// unless fewer hits came.
pub proof fn lemma_nearest_ascending(s: Seq<(Seq<char>, u32)>, k: nat)
    ensures
        is_ascending(nearest(s, k)),
        nearest(s, k).len() == (if k < s.len() { k as int } else { s.len() as int }),
{
    lemma_by_distance_ascending(s);
    lemma_by_distance_permutes(s);
}

/// The first hit after ranking is the earliest, in the incoming order, of the
/// hits at the least distance.
pub proof fn lemma_nearest_first(s: Seq<(Seq<char>, u32)>, i: int, k: nat)
    requires
        0 <= i < s.len(),
        k >= 1,
        forall|j: int| 0 <= j < s.len() ==> s[i].1 <= #[trigger] s[j].1,
        forall|j: int| 0 <= j < i ==> s[i].1 < #[trigger] s[j].1,
    ensures
        nearest(s, k).len() >= 1,
        nearest(s, k)[0] == s[i],
    decreases s.len(),
{
    lemma_by_distance_permutes(s);
    let t = s.drop_last();
    let b = by_distance(t);
    let x = s.last();
    lemma_by_distance_permutes(t);
    if t.len() == 0 {
        assert(by_distance(s) == place(b, x));
    } else if i == s.len() - 1 {
        b.to_multiset_ensures();
        t.to_multiset_ensures();
        assert(b.contains(b[0]));
        assert(b.to_multiset().count(b[0]) > 0);
        assert(t.to_multiset().count(b[0]) > 0);
        assert(t.contains(b[0]));
        let m = choose|m: int| 0 <= m < t.len() && t[m] == b[0];
        assert(t[m] == s[m]);
        assert(s[i].1 < s[m].1);
        assert(by_distance(s) == place(b, x));
        assert(place(b, x)[0] == x);
    } else {
        assert forall|j: int| 0 <= j < t.len() implies t[i].1 <= #[trigger] t[j].1 by {
            assert(t[j] == s[j]);
        }
        assert forall|j: int| 0 <= j < i implies t[i].1 < #[trigger] t[j].1 by {
            assert(t[j] == s[j]);
        }
        lemma_nearest_first(t, i, 1);
        assert(t[i] == s[i]);
        assert(b[0] == t[i]);
        assert(x == s[s.len() - 1]);
        assert(x.1 >= s[i].1);
        assert(by_distance(s) == place(b, x));
        assert(place(b, x)[0] == b[0]);
    }
    assert(nearest(s, k)[0] == by_distance(s)[0]);
}

/// Orders raw hits by distance, keeping equal distances in their incoming
/// order, and keeps the `k` nearest.
pub fn rank_neighbors(raw: Vec<Neighbor>, k: usize) -> (r: Vec<Neighbor>)
    ensures
        hits_view(r@) == nearest(hits_view(raw@), k as nat),
        is_ascending(hits_view(r@)),
        r@.len() == (if k < raw@.len() { k as int } else { raw@.len() as int }),
{
    let ghost input = hits_view(raw@);
    let mut sorted: Vec<Neighbor> = Vec::new();
    let mut i: usize = 0;
    while i < raw.len()
        invariant
            i <= raw@.len(),
            input == hits_view(raw@),
            hits_view(sorted@) == by_distance(input.take(i as int)),
            is_ascending(hits_view(sorted@)),
        decreases raw@.len() - i,
    {
        let x = Neighbor { payload: raw[i].payload.clone(), distance: raw[i].distance };
        let mut j: usize = 0;
        while j < sorted.len() && sorted[j].distance <= x.distance
            invariant
                j <= sorted@.len(),
                forall|m: int| 0 <= m < j ==> sorted@[m].distance <= x.distance,
            decreases sorted@.len() - j,
        {
            j = j + 1;
        }
        let ghost before = hits_view(sorted@);
        proof {
            lemma_place_is_insert(before, x@, j as int);
            lemma_place_ascending(before, x@);
            assert(input.take(i as int + 1).drop_last() =~= input.take(i as int));
            assert(input.take(i as int + 1).last() == x@);
        }
        sorted.insert(j, x);
        assert(hits_view(sorted@) =~= before.insert(j as int, x@));
        i = i + 1;
    }
    assert(input.take(raw@.len() as int) =~= input);
    proof {
        lemma_by_distance_permutes(input);
        lemma_nearest_ascending(input, k as nat);
    }
    sorted.truncate(k);
    assert(hits_view(sorted@) =~= nearest(input, k as nat));
    sorted
}

} // verus!
