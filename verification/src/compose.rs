use vstd::prelude::*;
use vstd::string::StringExecFns;

use crate::decorate::decorate_fact;
use crate::decorate::decorate_spec;

verus! {

/// The text of one layout row: the art line, where the row has one,
/// followed directly by the fact line, where the row has one; in
/// festive mode the fact line carries the ornament decoration.
pub open spec fn row_spec(
    l: Seq<Seq<char>>,
    r: Seq<Seq<char>>,
    christmas: bool,
    i: int,
) -> Seq<char> {
    (if 0 <= i < l.len() {
        l[i]
    } else {
        Seq::empty()
    }) + (if 0 <= i < r.len() {
        if christmas {
            decorate_spec(r[i])
        } else {
            r[i]
        }
    } else {
        Seq::empty()
    })
}

/// Side-by-side layout of an art block and a fact list: one row per
/// line of the longer list, shorter side continuing blank.
pub open spec fn compose_spec(l: Seq<Seq<char>>, r: Seq<Seq<char>>, christmas: bool) -> Seq<
    Seq<char>,
> {
    Seq::new(
        if l.len() >= r.len() {
            l.len()
        } else {
            r.len()
        },
        |i: int| row_spec(l, r, christmas, i),
    )
}

/// The row count is the longer list's length, for every input, the
/// degenerate empty-art and empty-fact cases included.
pub proof fn lemma_compose_row_count(l: Seq<Seq<char>>, r: Seq<Seq<char>>, christmas: bool)
    ensures
        compose_spec(l, r, christmas).len() == if l.len() >= r.len() {
            l.len()
        } else {
            r.len()
        },
{
}

/// With no facts at all, the layout is exactly the art block, one art
/// line per row, with nothing appended.
pub proof fn lemma_compose_art_only(l: Seq<Seq<char>>, christmas: bool)
    ensures
        compose_spec(l, Seq::<Seq<char>>::empty(), christmas) == l,
{
    let c = compose_spec(l, Seq::<Seq<char>>::empty(), christmas);
    assert forall|i: int| 0 <= i < l.len() implies c[i] == l[i] by {
        assert(l[i] + Seq::<char>::empty() =~= l[i]);
    }
    assert(c =~= l);
}

/// With no art lines at all, the plain layout is exactly the fact list.
pub proof fn lemma_compose_facts_only(r: Seq<Seq<char>>)
    ensures
        compose_spec(Seq::<Seq<char>>::empty(), r, false) == r,
{
    let c = compose_spec(Seq::<Seq<char>>::empty(), r, false);
    assert forall|i: int| 0 <= i < r.len() implies c[i] == r[i] by {
        assert(Seq::<char>::empty() + r[i] =~= r[i]);
    }
    assert(c =~= r);
}

/// Merge an art block and a fact list into printable rows, row by row.
pub fn compose_rows(left: &Vec<String>, right: &Vec<String>, christmas: bool) -> (rows: Vec<
    String,
>)
    ensures
        rows.deep_view() == compose_spec(left.deep_view(), right.deep_view(), christmas),
        rows.len() == if left.len() >= right.len() {
            left.len()
        } else {
            right.len()
        },
{
    let ghost l = left.deep_view();
    let ghost r = right.deep_view();
    let ghost target = compose_spec(l, r, christmas);
    let left_len = left.len();
    let right_len = right.len();
    let max_len = if left_len > right_len {
        left_len
    } else {
        right_len
    };
    let mut rows: Vec<String> = Vec::new();
    let mut i: usize = 0;
    proof {
        assert(rows.deep_view() =~= target.take(0));
    }
    while i < max_len
        invariant
            l == left.deep_view(),
            r == right.deep_view(),
            target == compose_spec(l, r, christmas),
            left_len == left.len(),
            right_len == right.len(),
            max_len == target.len(),
            0 <= i <= max_len,
            rows.deep_view() == target.take(i as int),
        decreases max_len - i,
    {
        let mut row = String::new();
        if i < left_len {
            row.append(left[i].as_str());
        }
        if i < right_len {
            if christmas {
                let decorated = decorate_fact(right[i].as_str());
                row.append(decorated.as_str());
            } else {
                row.append(right[i].as_str());
            }
        }
        proof {
            if i < left_len {
                assert(Seq::<char>::empty() + l[i as int] =~= l[i as int]);
            } else {
                assert(Seq::<char>::empty() + Seq::<char>::empty() =~= Seq::<char>::empty());
            }
            assert(row@ == row_spec(l, r, christmas, i as int));
        }
        let ghost pre = rows.deep_view();
        rows.push(row);
        proof {
            assert(rows.deep_view() =~= pre.push(row@));
            assert(target.take(i + 1) =~= target.take(i as int).push(target[i as int]));
        }
        i = i + 1;
    }
    proof {
        assert(target.take(max_len as int) =~= target);
    }
    rows
}

} // verus!
