use vstd::prelude::*;
use vstd::string::StrSliceExecFns;

verus! {

/// The Unicode White_Space characters: what trimming strips from both
/// ends of every line, incidental template indentation included.
pub open spec fn is_space(c: char) -> bool {
    ('\u{09}' <= c && c <= '\u{0d}') || c == ' ' || c == '\u{85}' || c == '\u{a0}'
        || c == '\u{1680}' || ('\u{2000}' <= c && c <= '\u{200a}') || c == '\u{2028}'
        || c == '\u{2029}' || c == '\u{202f}' || c == '\u{205f}' || c == '\u{3000}'
}

/// Executable twin of `is_space`.
#[verifier::when_used_as_spec(is_space)]
pub fn is_space_char(c: char) -> (r: bool)
    ensures
        r == is_space(c),
{
    ('\u{09}' <= c && c <= '\u{0d}') || c == ' ' || c == '\u{85}' || c == '\u{a0}'
        || c == '\u{1680}' || ('\u{2000}' <= c && c <= '\u{200a}') || c == '\u{2028}'
        || c == '\u{2029}' || c == '\u{202f}' || c == '\u{205f}' || c == '\u{3000}'
}

/// The sequence with all leading whitespace removed.
pub open spec fn drop_leading(s: Seq<char>) -> Seq<char>
    decreases s.len(),
{
    if s.len() > 0 && is_space(s[0]) {
        drop_leading(s.drop_first())
    } else {
        s
    }
}

/// The sequence with all trailing whitespace removed.
pub open spec fn drop_trailing(s: Seq<char>) -> Seq<char>
    decreases s.len(),
{
    if s.len() > 0 && is_space(s.last()) {
        drop_trailing(s.drop_last())
    } else {
        s
    }
}

/// The sequence with whitespace removed from both ends.
pub open spec fn trim_spec(s: Seq<char>) -> Seq<char> {
    drop_trailing(drop_leading(s))
}

proof fn lemma_drop_leading_skip(s: Seq<char>, a: int)
    requires
        0 <= a <= s.len(),
        forall|j: int| 0 <= j < a ==> is_space(s[j]),
    ensures
        drop_leading(s) == drop_leading(s.skip(a)),
    decreases a,
{
    if a == 0 {
        assert(s.skip(0) =~= s);
    } else {
        assert(is_space(s[0]));
        assert(s.drop_first() =~= s.skip(1));
        lemma_drop_leading_skip(s.skip(1), a - 1);
        assert(s.skip(1).skip(a - 1) =~= s.skip(a));
    }
}

proof fn lemma_drop_trailing_take(s: Seq<char>, m: int)
    requires
        0 <= m <= s.len(),
        forall|j: int| m <= j < s.len() ==> is_space(s[j]),
        m == 0 || !is_space(s[m - 1]),
    ensures
        drop_trailing(s) == s.take(m),
    decreases s.len(),
{
    if m == s.len() {
        assert(s.take(m) =~= s);
    } else {
        assert(is_space(s.last()));
        assert(s.drop_last() =~= s.take(s.len() - 1));
        lemma_drop_trailing_take(s.drop_last(), m);
        assert(s.drop_last().take(m) =~= s.take(m));
    }
}

/// Index of the first line separator in `s`, or `s.len()` if there is none.
pub open spec fn first_newline(s: Seq<char>) -> int
    decreases s.len(),
{
    if s.len() == 0 {
        0
    } else if s[0] == '\n' {
        0
    } else {
        1 + first_newline(s.drop_first())
    }
}

pub proof fn lemma_first_newline(s: Seq<char>)
    ensures
        0 <= first_newline(s) <= s.len(),
        first_newline(s) < s.len() ==> s[first_newline(s)] == '\n',
        forall|j: int| 0 <= j < first_newline(s) ==> s[j] != '\n',
    decreases s.len(),
{
    if s.len() == 0 {
    } else if s[0] == '\n' {
    } else {
        lemma_first_newline(s.drop_first());
        assert forall|j: int| 0 <= j < first_newline(s) implies s[j] != '\n' by {
            if j > 0 {
                assert(s.drop_first()[j - 1] == s[j]);
            }
        }
    }
}

/// One trimmed line per line separator, in order; text after the last
/// separator (or all of a separator-free text) yields no line.
pub open spec fn split_lines_spec(s: Seq<char>) -> Seq<Seq<char>>
    decreases s.len(),
{
    let k = first_newline(s);
    if 0 <= k < s.len() {
        seq![trim_spec(s.take(k))] + split_lines_spec(s.skip(k + 1))
    } else {
        seq![]
    }
}

/// Splitting off the text up to the first separator peels off one line.
pub proof fn lemma_split_first(s: Seq<char>, k: int)
    requires
        0 <= k < s.len(),
        s[k] == '\n',
        forall|j: int| 0 <= j < k ==> s[j] != '\n',
    ensures
        split_lines_spec(s) == seq![trim_spec(s.take(k))] + split_lines_spec(s.skip(k + 1)),
{
    lemma_first_newline(s);
    let f = first_newline(s);
    if f < k {
        assert(s[f] == '\n');
        assert(false);
    }
    if f > k {
        assert(s[k] != '\n');
        assert(false);
    }
}

/// A separator-free text splits into no lines at all.
pub proof fn lemma_split_none(s: Seq<char>)
    requires
        forall|j: int| 0 <= j < s.len() ==> s[j] != '\n',
    ensures
        split_lines_spec(s) == Seq::<Seq<char>>::empty(),
{
    lemma_first_newline(s);
    if first_newline(s) < s.len() {
        assert(false);
    }
    assert(split_lines_spec(s) =~= Seq::<Seq<char>>::empty());
}

/// Split a multi-line text into its lines, trimming each one; the
/// remainder after the final separator is incidental and is dropped.
pub fn split_by_newline(ascii_art: String) -> (r: Vec<String>)
    ensures
        r.deep_view() == split_lines_spec(ascii_art@),
{
    let t: &str = ascii_art.as_str();
    let n = t.unicode_len();
    let mut out: Vec<String> = Vec::new();
    let mut start: usize = 0;
    let mut i: usize = 0;
    proof {
        assert(out.deep_view() =~= Seq::<Seq<char>>::empty());
        assert(t@.skip(0) =~= t@);
        assert(Seq::<Seq<char>>::empty() + split_lines_spec(t@) =~= split_lines_spec(t@));
    }
    while i < n
        invariant
            n == t@.len(),
            t@ == ascii_art@,
            0 <= start as int <= i as int <= n as int,
            forall|j: int| start <= j < i ==> t@[j] != '\n',
            split_lines_spec(t@) == out.deep_view() + split_lines_spec(t@.skip(start as int)),
        decreases n - i,
    {
        if t.get_char(i) == '\n' {
            let line = trim_str(t.substring_char(start, i));
            let ghost pre = out.deep_view();
            let ghost tail = t@.skip(start as int);
            proof {
                assert forall|j: int| 0 <= j < i - start implies tail[j] != '\n' by {
                    assert(tail[j] == t@[start + j]);
                }
                assert(tail[i - start] == t@[i as int]);
                lemma_split_first(tail, i - start);
                assert(tail.take(i - start) =~= t@.subrange(start as int, i as int));
                assert(tail.skip(i - start + 1) =~= t@.skip(i as int + 1));
            }
            out.push(line);
            proof {
                assert(out.deep_view() =~= pre.push(line@));
                assert(pre + (seq![line@] + split_lines_spec(t@.skip(i as int + 1))) =~= pre.push(
                    line@,
                ) + split_lines_spec(t@.skip(i as int + 1)));
            }
            start = i + 1;
        }
        i = i + 1;
    }
    proof {
        lemma_split_none(t@.skip(start as int));
        assert(out.deep_view() + Seq::<Seq<char>>::empty() =~= out.deep_view());
    }
    out
}

/// No line separator occurs anywhere in `s`.
pub open spec fn no_newline(s: Seq<char>) -> bool {
    forall|j: int| 0 <= j < s.len() ==> s[j] != '\n'
}

/// A line as the splitter produces it: already trimmed, separator-free.
pub open spec fn clean_line(l: Seq<char>) -> bool {
    &&& l == trim_spec(l)
    &&& no_newline(l)
}

proof fn lemma_drop_leading_props(s: Seq<char>)
    ensures
        drop_leading(s).len() <= s.len(),
        drop_leading(s) == s.skip(s.len() - drop_leading(s).len()),
        drop_leading(s).len() > 0 ==> !is_space(drop_leading(s)[0]),
    decreases s.len(),
{
    if s.len() > 0 && is_space(s[0]) {
        lemma_drop_leading_props(s.drop_first());
        assert(s.drop_first() =~= s.skip(1));
        assert(s.skip(1).skip(s.len() - 1 - drop_leading(s).len()) =~= s.skip(
            s.len() - drop_leading(s).len(),
        ));
    } else {
        assert(s.skip(0) =~= s);
    }
}

proof fn lemma_drop_trailing_props(s: Seq<char>)
    ensures
        drop_trailing(s).len() <= s.len(),
        drop_trailing(s) == s.take(drop_trailing(s).len() as int),
        drop_trailing(s).len() > 0 ==> !is_space(drop_trailing(s).last()),
    decreases s.len(),
{
    if s.len() > 0 && is_space(s.last()) {
        lemma_drop_trailing_props(s.drop_last());
        assert(s.drop_last() =~= s.take(s.len() - 1));
        assert(s.take(s.len() - 1).take(drop_trailing(s).len() as int) =~= s.take(
            drop_trailing(s).len() as int,
        ));
    } else {
        assert(s.take(s.len() as int) =~= s);
    }
}

/// A trimmed text is a contiguous piece of the input whose ends carry
/// no whitespace.
pub proof fn lemma_trim_props(s: Seq<char>)
    ensures
        trim_spec(s).len() <= s.len(),
        exists|d: int|
            0 <= d && d + trim_spec(s).len() <= s.len() && trim_spec(s) == #[trigger] s.subrange(
                d,
                d + trim_spec(s).len(),
            ),
        trim_spec(s).len() > 0 ==> !is_space(trim_spec(s)[0]) && !is_space(trim_spec(s).last()),
{
    lemma_drop_leading_props(s);
    let dl = drop_leading(s);
    let d = s.len() - dl.len();
    lemma_drop_trailing_props(dl);
    let t = trim_spec(s);
    assert(t == dl.take(t.len() as int));
    assert(s.skip(d).take(t.len() as int) =~= s.subrange(d, d + t.len()));
    if t.len() > 0 {
        assert(t[0] == dl[0]);
    }
}

/// Trimming an already trimmed text changes nothing.
pub proof fn lemma_trim_idempotent(s: Seq<char>)
    ensures
        trim_spec(trim_spec(s)) == trim_spec(s),
{
    lemma_trim_props(s);
    let t = trim_spec(s);
    if t.len() == 0 {
        assert(trim_spec(t) =~= t);
    } else {
        assert(drop_leading(t) == t);
        assert(drop_trailing(t) == t);
    }
}

proof fn lemma_trim_no_newline(s: Seq<char>)
    requires
        no_newline(s),
    ensures
        no_newline(trim_spec(s)),
{
    lemma_trim_props(s);
    let t = trim_spec(s);
    let d = choose|d: int|
        0 <= d && d + t.len() <= s.len() && t == #[trigger] s.subrange(d, d + t.len() as int);
    assert forall|j: int| 0 <= j < t.len() implies t[j] != '\n' by {
        assert(t[j] == s[d + j]);
    }
}

/// Every line the splitter produces is trimmed and separator-free.
pub proof fn lemma_split_lines_form(s: Seq<char>)
    ensures
        forall|i: int|
            0 <= i < split_lines_spec(s).len() ==> #[trigger] clean_line(split_lines_spec(s)[i]),
    decreases s.len(),
{
    lemma_first_newline(s);
    let k = first_newline(s);
    if 0 <= k < s.len() {
        let head = s.take(k);
        assert forall|j: int| 0 <= j < head.len() implies head[j] != '\n' by {
            assert(head[j] == s[j]);
        }
        lemma_trim_no_newline(head);
        lemma_trim_idempotent(head);
        assert(clean_line(trim_spec(head)));
        lemma_split_lines_form(s.skip(k + 1));
        assert forall|i: int|
            0 <= i < split_lines_spec(s).len() implies #[trigger] clean_line(
            split_lines_spec(s)[i],
        ) by {
            if i > 0 {
                assert(split_lines_spec(s)[i] == split_lines_spec(s.skip(k + 1))[i - 1]);
            }
        }
    }
}

/// Joining lines with the separator, one per line.
pub open spec fn join_lines(lines: Seq<Seq<char>>) -> Seq<char>
    decreases lines.len(),
{
    if lines.len() == 0 {
        Seq::empty()
    } else {
        lines[0] + seq!['\n'] + join_lines(lines.drop_first())
    }
}

/// Splitting the join of clean lines gives the lines back unchanged.
pub proof fn lemma_split_join(lines: Seq<Seq<char>>)
    requires
        forall|i: int| 0 <= i < lines.len() ==> #[trigger] clean_line(lines[i]),
    ensures
        split_lines_spec(join_lines(lines)) == lines,
    decreases lines.len(),
{
    if lines.len() == 0 {
        lemma_split_none(join_lines(lines));
        assert(split_lines_spec(join_lines(lines)) =~= lines);
    } else {
        let l0 = lines[0];
        assert(clean_line(l0));
        let j = join_lines(lines);
        let k = l0.len() as int;
        assert(j[k] == '\n');
        assert forall|i: int| 0 <= i < k implies j[i] != '\n' by {
            assert(j[i] == l0[i]);
        }
        lemma_split_first(j, k);
        assert(j.take(k) =~= l0);
        assert(j.skip(k + 1) =~= join_lines(lines.drop_first()));
        lemma_split_join(lines.drop_first());
        assert(seq![trim_spec(l0)] + lines.drop_first() =~= lines);
    }
}

/// Splitting is idempotent: joining the lines a split produced with the
/// line separator and splitting again yields the very same lines.
pub proof fn lemma_split_idempotent(s: Seq<char>)
    ensures
        split_lines_spec(join_lines(split_lines_spec(s))) == split_lines_spec(s),
{
    lemma_split_lines_form(s);
    lemma_split_join(split_lines_spec(s));
}

/// Character-wise equality of two string slices.
pub fn str_eq(a: &str, b: &str) -> (r: bool)
    ensures
        r == (a@ == b@),
{
    let na = a.unicode_len();
    let nb = b.unicode_len();
    if na != nb {
        return false;
    }
    let mut i: usize = 0;
    while i < na
        invariant
            na == a@.len(),
            na == b@.len(),
            0 <= i <= na,
            forall|j: int| 0 <= j < i ==> a@[j] == b@[j],
        decreases na - i,
    {
        if a.get_char(i) != b.get_char(i) {
            return false;
        }
        i = i + 1;
    }
    proof {
        assert(a@ =~= b@);
    }
    true
}

/// Remove leading and trailing whitespace from a string slice.
pub fn trim_str(t: &str) -> (r: String)
    ensures
        r@ == trim_spec(t@),
{
    let n = t.unicode_len();
    let mut a: usize = 0;
    while a < n && is_space_char(t.get_char(a))
        invariant
            n == t@.len(),
            0 <= a <= n,
            forall|j: int| 0 <= j < a ==> is_space(t@[j]),
        decreases n - a,
    {
        a = a + 1;
    }
    let mut b: usize = n;
    while b > a && is_space_char(t.get_char(b - 1))
        invariant
            n == t@.len(),
            a <= b <= n,
            forall|j: int| b <= j < n ==> is_space(t@[j]),
        decreases b,
    {
        b = b - 1;
    }
    let piece = t.substring_char(a, b);
    let r = piece.to_owned();
    proof {
        lemma_drop_leading_skip(t@, a as int);
        if a < n {
            assert(t@.skip(a as int)[0] == t@[a as int]);
        }
        assert(drop_leading(t@) == t@.skip(a as int));
        lemma_drop_trailing_take(t@.skip(a as int), b - a);
        assert(t@.skip(a as int).take(b - a) =~= t@.subrange(a as int, b as int));
    }
    r
}

} // verus!
