use crate::category::QueryCategory;
use crate::errors::QueryError;
use crate::workspace::TargetModel;
use crate::workspace::WorkspaceInfo;
use crate::workspace::WorkspaceModel;
use vstd::prelude::*;

verus! {

/// The names of the targets that belong to `c`, kept in the workspace's own
/// discovery order.
pub open spec fn matching_names(ts: Seq<TargetModel>, c: QueryCategory) -> Seq<Seq<char>>
    decreases ts.len(),
{
    if ts.len() == 0 {
        Seq::empty()
    } else {
        let rest = matching_names(ts.drop_last(), c);
        if c.matches_kind_spec(ts.last().kind) {
            rest.push(ts.last().name)
        } else {
            rest
        }
    }
}

/// `s` with every repeated element dropped: the first occurrence of each
/// element stays, in its original position relative to the others.
pub open spec fn first_occurrences<T>(s: Seq<T>) -> Seq<T>
    decreases s.len(),
{
    if s.len() == 0 {
        Seq::empty()
    } else {
        let rest = first_occurrences(s.drop_last());
        if rest.contains(s.last()) {
            rest
        } else {
            rest.push(s.last())
        }
    }
}

/// The candidate list the catalog owes for a category that has one: the
/// matching target names for a target category, the configured profile names
/// for Profile, in discovery order and with duplicates dropped.
pub open spec fn candidates_spec(c: QueryCategory, w: WorkspaceModel) -> Seq<Seq<char>> {
    if c is Profile {
        first_occurrences(w.profiles)
    } else {
        first_occurrences(matching_names(w.targets, c))
    }
}

pub proof fn lemma_first_occurrences_props<T>(s: Seq<T>)
    ensures
        first_occurrences(s).no_duplicates(),
        forall|x: T| first_occurrences(s).contains(x) <==> s.contains(x),
        first_occurrences(s).len() <= s.len(),
    decreases s.len(),
{
    if s.len() == 0 {
        assert forall|x: T| first_occurrences(s).contains(x) <==> s.contains(x) by {
            if s.contains(x) {
                let i = choose|i: int| 0 <= i < s.len() && s[i] == x;
            }
        }
    } else {
        let head = s.drop_last();
        let rest = first_occurrences(head);
        lemma_first_occurrences_props(head);
        assert forall|x: T| s.contains(x) implies head.contains(x) || x == s.last() by {
            let i = choose|i: int| 0 <= i < s.len() && s[i] == x;
            if i < s.len() - 1 {
                assert(head[i] == x);
            }
        }
        assert forall|x: T| head.contains(x) implies s.contains(x) by {
            let i = choose|i: int| 0 <= i < head.len() && head[i] == x;
            assert(s[i] == x);
        }
        assert(s.contains(s.last())) by {
            assert(s[s.len() - 1] == s.last());
        }
        if !rest.contains(s.last()) {
            let r = rest.push(s.last());
            assert forall|i: int, j: int|
                0 <= i < r.len() && 0 <= j < r.len() && i != j implies r[i] != r[j] by {
                if i < rest.len() && j < rest.len() {
                    assert(rest[i] == r[i] && rest[j] == r[j]);
                } else if i < rest.len() {
                    assert(rest.contains(rest[i]));
                } else if j < rest.len() {
                    assert(rest.contains(rest[j]));
                }
            }
            assert forall|x: T| r.contains(x) implies rest.contains(x) || x == s.last() by {
                let i = choose|i: int| 0 <= i < r.len() && r[i] == x;
                if i < rest.len() {
                    assert(rest[i] == x);
                }
            }
            assert forall|x: T| rest.contains(x) implies r.contains(x) by {
                let i = choose|i: int| 0 <= i < rest.len() && rest[i] == x;
                assert(r[i] == x);
            }
            assert(r.contains(s.last())) by {
                assert(r[r.len() - 1] == s.last());
            }
        }
    }
}

/// Some target of `ts` belongs to `c` and carries this display name.
pub open spec fn names_a_matching_target(
    ts: Seq<TargetModel>,
    c: QueryCategory,
    name: Seq<char>,
) -> bool {
    exists|j: int|
        0 <= j < ts.len() && c.matches_kind_spec(#[trigger] ts[j].kind) && ts[j].name == name
}

pub proof fn lemma_matching_names_sound(ts: Seq<TargetModel>, c: QueryCategory)
    ensures
        matching_names(ts, c).len() <= ts.len(),
        forall|k: int|
            0 <= k < matching_names(ts, c).len() ==> names_a_matching_target(
                ts,
                c,
                #[trigger] matching_names(ts, c)[k],
            ),
    decreases ts.len(),
{
    if ts.len() > 0 {
        let head = ts.drop_last();
        lemma_matching_names_sound(head, c);
        let m = matching_names(ts, c);
        assert forall|k: int| 0 <= k < m.len() implies names_a_matching_target(
            ts,
            c,
            m[k],
        ) by {
            let mh = matching_names(head, c);
            if k < mh.len() {
                assert(names_a_matching_target(head, c, mh[k]));
                let j = choose|j: int|
                    0 <= j < head.len() && c.matches_kind_spec(#[trigger] head[j].kind)
                        && head[j].name == mh[k];
                assert(ts[j] == head[j]);
                assert(c.matches_kind_spec(ts[j].kind) && ts[j].name == m[k]);
            } else {
                let j = ts.len() - 1;
                assert(c.matches_kind_spec(ts[j].kind) && ts[j].name == m[k]);
            }
        }
    }
}

/// `s` with repeated strings dropped, keeping the first occurrence of each in
/// its original order.
pub fn dedup_strings(items: &Vec<String>) -> (r: Vec<String>)
    ensures
        r.deep_view() == first_occurrences(items.deep_view()),
{
    let ghost dv: Seq<Seq<char>> = items.deep_view();
    let mut r: Vec<String> = Vec::new();
    let mut i: usize = 0;
    while i < items.len()
        invariant
            0 <= i <= items.len(),
            dv == items.deep_view(),
            dv.len() == items.len(),
            r.deep_view() == first_occurrences(dv.take(i as int)),
        decreases items.len() - i,
    {
        let ghost rv: Seq<Seq<char>> = r.deep_view();
        let mut found = false;
        let mut j: usize = 0;
        while j < r.len() && !found
            invariant
                0 <= j <= r.len(),
                rv == r.deep_view(),
                rv.len() == r.len(),
                i < items.len(),
                dv.len() == items.len(),
                dv == items.deep_view(),
                !found ==> forall|k: int| 0 <= k < j ==> rv[k] != dv[i as int],
                found ==> rv.contains(dv[i as int]),
            decreases r.len() - j,
        {
            if r[j].eq(&items[i]) {
                found = true;
                proof {
                    assert(rv[j as int] == dv[i as int]);
                }
            }
            j += 1;
        }
        proof {
            if !found {
                assert(!rv.contains(dv[i as int]));
            }
            assert(dv.take(i + 1).drop_last() =~= dv.take(i as int));
            assert(dv.take(i + 1).last() == dv[i as int]);
        }
        if !found {
            r.push(items[i].clone());
            proof {
                assert(r.deep_view() =~= rv.push(dv[i as int]));
            }
        }
        i += 1;
    }
    proof {
        assert(dv.take(items.len() as int) =~= dv);
    }
    r
}

/// Produces the ordered candidate list for `category` from the workspace
/// metadata: matching target names for a target category, profile names for
/// Profile. Features has no enumeration strategy and is refused before any
/// interactive work. An empty list is not an error.
pub fn enumerate(category: &QueryCategory, ws: &WorkspaceInfo) -> (r: Result<
    Vec<String>,
    QueryError,
>)
    ensures
        category is Features ==> r == Err::<Vec<String>, QueryError>(
            QueryError::UnsupportedCategory,
        ),
        !(category is Features) ==> (r matches Ok(v) && v.deep_view() == candidates_spec(
            *category,
            ws@,
        )),
{
    match category {
        QueryCategory::Features => Err(QueryError::UnsupportedCategory),
        QueryCategory::Profile => Ok(dedup_strings(&ws.profiles)),
        QueryCategory::Binaries
        | QueryCategory::Examples
        | QueryCategory::Tests
        | QueryCategory::Benches => {
            let ghost tv: Seq<TargetModel> = ws@.targets;
            let mut names: Vec<String> = Vec::new();
            let mut i: usize = 0;
            while i < ws.targets.len()
                invariant
                    0 <= i <= ws.targets.len(),
                    tv == ws@.targets,
                    tv.len() == ws.targets.len(),
                    category.has_target_predicate(),
                    names.deep_view() == matching_names(tv.take(i as int), *category),
                decreases ws.targets.len() - i,
            {
                let ghost nv: Seq<Seq<char>> = names.deep_view();
                let keep = match category.matches_kind(&ws.targets[i].kind) {
                    Ok(b) => b,
                    Err(_) => false,
                };
                proof {
                    assert(tv.take(i + 1).drop_last() =~= tv.take(i as int));
                    assert(tv.take(i + 1).last() == tv[i as int]);
                    assert(tv[i as int].kind == ws.targets@[i as int].kind);
                }
                if keep {
                    names.push(ws.targets[i].name.clone());
                    proof {
                        assert(names.deep_view() =~= nv.push(tv[i as int].name));
                    }
                }
                i += 1;
            }
            proof {
                assert(tv.take(ws.targets.len() as int) =~= tv);
            }
            Ok(dedup_strings(&names))
        },
    }
}

} // verus!
