//! Lists of named values, such as the headers of a request or the clients of
//! a cluster by node name: setting a name that is present replaces its value
//! in place, setting a new one appends it, so the last value set for a name
//! wins and each name keeps the place where it was first set.
use vstd::prelude::*;

verus! {

/// A name and its value, as text.
pub open spec fn pair_view(p: (String, String)) -> (Seq<char>, Seq<char>) {
    (p.0@, p.1@)
}

/// The names and values of `ps`, as text.
pub open spec fn pairs_view(ps: Seq<(String, String)>) -> Seq<(Seq<char>, Seq<char>)> {
    ps.map_values(|p: (String, String)| pair_view(p))
}

/// Index of the last pair named `name` in `ps`, or -1 where none is.
pub open spec fn name_index(ps: Seq<(Seq<char>, Seq<char>)>, name: Seq<char>) -> int
    decreases ps.len(),
{
    if ps.len() == 0 {
        -1
    } else if ps.last().0 == name {
        ps.len() - 1
    } else {
        name_index(ps.drop_last(), name)
    }
}

/// `ps` with `name` set to `value`: in place where the name is present, else
/// appended.
pub open spec fn set_pair(ps: Seq<(Seq<char>, Seq<char>)>, name: Seq<char>, value: Seq<char>) -> Seq<
    (Seq<char>, Seq<char>),
> {
    let i = name_index(ps, name);
    if i >= 0 {
        ps.update(i, (name, value))
    } else {
        ps.push((name, value))
    }
}

/// `ps` with each pair of `extra` set in turn.
pub open spec fn set_pairs(ps: Seq<(Seq<char>, Seq<char>)>, extra: Seq<(Seq<char>, Seq<char>)>) -> Seq<
    (Seq<char>, Seq<char>),
>
    decreases extra.len(),
{
    if extra.len() == 0 {
        ps
    } else {
        set_pair(set_pairs(ps, extra.drop_last()), extra.last().0, extra.last().1)
    }
}

/// No name occurs twice in `ps`.
pub open spec fn names_distinct(ps: Seq<(Seq<char>, Seq<char>)>) -> bool {
    forall|i: int, j: int| 0 <= i < j < ps.len() ==> #[trigger] ps[i].0 != #[trigger] ps[j].0
}

pub proof fn lemma_name_index(ps: Seq<(Seq<char>, Seq<char>)>, name: Seq<char>)
    ensures
        -1 <= name_index(ps, name) < ps.len(),
        name_index(ps, name) >= 0 ==> ps[name_index(ps, name)].0 == name,
        forall|k: int| name_index(ps, name) < k < ps.len() ==> #[trigger] ps[k].0 != name,
    decreases ps.len(),
{
    if ps.len() > 0 && ps.last().0 != name {
        lemma_name_index(ps.drop_last(), name);
        assert forall|k: int| name_index(ps, name) < k < ps.len() implies #[trigger] ps[k].0
            != name by {
            if k < ps.len() - 1 {
                assert(ps.drop_last()[k] == ps[k]);
            }
        }
    }
}

/// Setting a name keeps the names distinct, and after it the name holds the
/// value set while every other name keeps its value.
pub proof fn lemma_set_pair(ps: Seq<(Seq<char>, Seq<char>)>, name: Seq<char>, value: Seq<char>)
    requires
        names_distinct(ps),
    ensures
        names_distinct(set_pair(ps, name, value)),
        name_index(set_pair(ps, name, value), name) >= 0,
        set_pair(ps, name, value)[name_index(set_pair(ps, name, value), name)].1 == value,
        forall|other: Seq<char>|
            other != name ==> name_index(#[trigger] set_pair(ps, name, value), other) == name_index(
                ps,
                other,
            ),
{
    lemma_name_index(ps, name);
    let r = set_pair(ps, name, value);
    let i = name_index(ps, name);
    if i >= 0 {
        assert forall|a: int, b: int| 0 <= a < b < r.len() implies #[trigger] r[a].0
            != #[trigger] r[b].0 by {
            if a != i && b != i {
                assert(r[a] == ps[a] && r[b] == ps[b]);
            } else if a == i {
                assert(ps[b].0 != ps[i].0);
            } else {
                assert(ps[a].0 != ps[i].0);
            }
        }
        lemma_index_of_distinct(r, name, i);
    } else {
        assert forall|a: int, b: int| 0 <= a < b < r.len() implies #[trigger] r[a].0
            != #[trigger] r[b].0 by {
            if b == ps.len() {
                assert(r[a] == ps[a]);
            } else {
                assert(r[a] == ps[a] && r[b] == ps[b]);
            }
        }
        lemma_index_of_distinct(r, name, ps.len() as int);
    }
    assert forall|other: Seq<char>| other != name implies name_index(
        #[trigger] set_pair(ps, name, value),
        other,
    ) == name_index(ps, other) by {
        lemma_name_index(ps, other);
        lemma_name_index(r, other);
        let j = name_index(ps, other);
        let k = name_index(r, other);
        if j >= 0 {
            assert(r[j] == ps[j]);
        }
        if k >= 0 && k < ps.len() {
            assert(r[k] == ps[k]);
        }
        if k > j && k >= 0 {
            if k < ps.len() {
                assert(ps[k].0 == other);
            }
        }
        if j > k && j >= 0 {
            assert(r[j].0 == other);
        }
    }
}

/// In a list of distinct names, the index of a name is the one place that
/// holds it.
pub proof fn lemma_index_of_distinct(ps: Seq<(Seq<char>, Seq<char>)>, name: Seq<char>, i: int)
    requires
        names_distinct(ps),
        0 <= i < ps.len(),
        ps[i].0 == name,
    ensures
        name_index(ps, name) == i,
{
    lemma_name_index(ps, name);
    let j = name_index(ps, name);
    if j > i {
        assert(ps[i].0 != ps[j].0);
    }
}

/// Setting pairs in turn keeps the names distinct.
pub proof fn lemma_set_pairs_distinct(
    ps: Seq<(Seq<char>, Seq<char>)>,
    extra: Seq<(Seq<char>, Seq<char>)>,
)
    requires
        names_distinct(ps),
    ensures
        names_distinct(set_pairs(ps, extra)),
    decreases extra.len(),
{
    if extra.len() > 0 {
        lemma_set_pairs_distinct(ps, extra.drop_last());
        lemma_set_pair(set_pairs(ps, extra.drop_last()), extra.last().0, extra.last().1);
    }
}

/// The last value set for a name wins: where no later pair of `extra` has
/// the name of `extra[k]`, that name holds the value of `extra[k]` once all
/// pairs are set.
pub proof fn lemma_set_pairs_last_wins(
    ps: Seq<(Seq<char>, Seq<char>)>,
    extra: Seq<(Seq<char>, Seq<char>)>,
    k: int,
)
    requires
        names_distinct(ps),
        0 <= k < extra.len(),
        forall|j: int| k < j < extra.len() ==> #[trigger] extra[j].0 != extra[k].0,
    ensures
        name_index(set_pairs(ps, extra), extra[k].0) >= 0,
        set_pairs(ps, extra)[name_index(set_pairs(ps, extra), extra[k].0)].1 == extra[k].1,
    decreases extra.len(),
{
    let init = extra.drop_last();
    lemma_set_pairs_distinct(ps, init);
    lemma_set_pair(set_pairs(ps, init), extra.last().0, extra.last().1);
    if k < extra.len() - 1 {
        assert forall|j: int| k < j < init.len() implies #[trigger] init[j].0 != init[k].0 by {
            assert(init[j] == extra[j]);
        }
        lemma_set_pairs_last_wins(ps, init, k);
        assert(extra[extra.len() - 1].0 != extra[k].0);
        assert(init[k] == extra[k]);
        let before = set_pairs(ps, init);
        let after = set_pairs(ps, extra);
        lemma_name_index(before, extra[k].0);
        let i = name_index(before, extra[k].0);
        assert(name_index(after, extra[k].0) == i);
        lemma_name_index(before, extra.last().0);
        let at = name_index(before, extra.last().0);
        if at >= 0 {
            assert(before[at].0 != before[i].0);
            assert(after[i] == before[i]);
        } else {
            assert(after[i] == before[i]);
        }
    }
}

/// Sets `name` to `value` in `ps`.
pub fn set_named(ps: &mut Vec<(String, String)>, name: String, value: String)
    ensures
        pairs_view(final(ps)@) == set_pair(pairs_view(old(ps)@), name@, value@),
{
    let ghost view = pairs_view(ps@);
    let mut k: usize = ps.len();
    assert(view.subrange(0, k as int) =~= view);
    while k > 0 && ps[k - 1].0 != name
        invariant
            k <= ps.len(),
            ps@ == old(ps)@,
            view == pairs_view(ps@),
            name_index(view, name@) == name_index(view.subrange(0, k as int), name@),
        decreases k,
    {
        assert(view.subrange(0, k as int).drop_last() =~= view.subrange(0, k - 1));
        assert(view[k - 1] == pair_view(ps@[k - 1]));
        k = k - 1;
    }
    if k == 0 {
        assert(view.subrange(0, 0) =~= Seq::<(Seq<char>, Seq<char>)>::empty());
        let ghost pair = (name@, value@);
        ps.push((name, value));
        assert(pairs_view(ps@) =~= view.push(pair));
    } else {
        assert(view[k - 1] == pair_view(ps@[k - 1]));
        assert(name_index(view.subrange(0, k as int), name@) == k - 1);
        let ghost pair = (name@, value@);
        ps.set(k - 1, (name, value));
        assert(pairs_view(ps@) =~= view.update(k - 1, pair));
    }
}

} // verus!
