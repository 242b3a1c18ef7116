use vstd::prelude::*;
use vstd::string::StrSliceExecFns;
use vstd::string::StringExecFns;

use crate::colors::green;
use crate::colors::green_seq;
use crate::colors::red;
use crate::colors::red_seq;

verus! {

/// The glyph in fact lines that festive decoration targets.
pub open spec fn ornament() -> char {
    '\u{25aa}'
}

/// Executable twin of `ornament`.
#[verifier::when_used_as_spec(ornament)]
pub fn ornament_char() -> (r: char)
    ensures
        r == ornament(),
{
    '\u{25aa}'
}

/// One decorated glyph: red foreground, the glyph, then back to green so
/// that the art line sharing the row keeps its own coloring.
pub open spec fn wrapped_ornament() -> Seq<char> {
    red_seq() + seq![ornament()] + green_seq()
}

/// The text with every ornament glyph wrapped in the red/green escape
/// pair and every other character left alone.
pub open spec fn decorate_spec(s: Seq<char>) -> Seq<char>
    decreases s.len(),
{
    if s.len() == 0 {
        Seq::empty()
    } else {
        (if s[0] == ornament() {
            wrapped_ornament()
        } else {
            seq![s[0]]
        }) + decorate_spec(s.drop_first())
    }
}

/// Decoration works character by character: it distributes over
/// concatenation, so a substitution never reaches beyond the glyph it
/// replaces.
pub proof fn lemma_decorate_concat(a: Seq<char>, b: Seq<char>)
    ensures
        decorate_spec(a + b) == decorate_spec(a) + decorate_spec(b),
    decreases a.len(),
{
    if a.len() == 0 {
        assert(a + b =~= b);
        assert(decorate_spec(a) + decorate_spec(b) =~= decorate_spec(b));
    } else {
        assert((a + b).drop_first() =~= a.drop_first() + b);
        assert((a + b)[0] == a[0]);
        lemma_decorate_concat(a.drop_first(), b);
        let unit = if a[0] == ornament() {
            wrapped_ornament()
        } else {
            seq![a[0]]
        };
        assert(unit + (decorate_spec(a.drop_first()) + decorate_spec(b)) =~= (unit + decorate_spec(
            a.drop_first(),
        )) + decorate_spec(b));
    }
}

/// A single ornament glyph becomes exactly the closed escape pair.
pub proof fn lemma_decorate_ornament_char()
    ensures
        decorate_spec(seq![ornament()]) == wrapped_ornament(),
{
    reveal_with_fuel(decorate_spec, 2);
    assert(seq![ornament()].drop_first() =~= Seq::<char>::empty());
    assert(wrapped_ornament() + Seq::<char>::empty() =~= wrapped_ornament());
}

/// Any other single character is emitted unchanged.
pub proof fn lemma_decorate_plain_char(c: char)
    requires
        c != ornament(),
    ensures
        decorate_spec(seq![c]) == seq![c],
{
    reveal_with_fuel(decorate_spec, 2);
    assert(seq![c].drop_first() =~= Seq::<char>::empty());
    assert(seq![c] + Seq::<char>::empty() =~= seq![c]);
}

/// A fact line holding no ornament glyph is emitted unchanged.
pub proof fn lemma_decorate_no_ornament(s: Seq<char>)
    requires
        forall|j: int| 0 <= j < s.len() ==> s[j] != ornament(),
    ensures
        decorate_spec(s) == s,
    decreases s.len(),
{
    if s.len() == 0 {
        assert(decorate_spec(s) =~= s);
    } else {
        lemma_decorate_no_ornament(s.drop_first());
        assert(seq![s[0]] + s.drop_first() =~= s);
    }
}

/// How often the ornament glyph occurs in a text.
pub open spec fn ornament_count(s: Seq<char>) -> nat
    decreases s.len(),
{
    if s.len() == 0 {
        0
    } else {
        (if s[0] == ornament() {
            1nat
        } else {
            0nat
        }) + ornament_count(s.drop_first())
    }
}

/// A text with `k` ornament glyphs grows by exactly `k` escape pairs:
/// every occurrence is substituted, and nothing else is added.
pub proof fn lemma_decorate_len(s: Seq<char>)
    ensures
        decorate_spec(s).len() == s.len() + ornament_count(s) * (red_seq().len()
            + green_seq().len()),
    decreases s.len(),
{
    let k = red_seq().len() + green_seq().len();
    if s.len() == 0 {
        assert(ornament_count(s) * k == 0) by (nonlinear_arith)
            requires
                ornament_count(s) == 0,
        ;
    } else {
        lemma_decorate_len(s.drop_first());
        let c = ornament_count(s.drop_first());
        if s[0] == ornament() {
            assert(wrapped_ornament().len() == k + 1);
            assert((1 + c) * k == k + c * k) by (nonlinear_arith);
        } else {
            assert((0 + c) * k == c * k) by (nonlinear_arith);
        }
    }
}

/// Wrap every ornament glyph of a fact line in the red/green escape
/// pair, leaving all other characters untouched.
pub fn decorate_fact(s: &str) -> (r: String)
    ensures
        r@ == decorate_spec(s@),
{
    let n = s.unicode_len();
    let mut out = String::new();
    let mut i: usize = 0;
    proof {
        assert(s@.take(0) =~= Seq::<char>::empty());
    }
    while i < n
        invariant
            n == s@.len(),
            0 <= i <= n,
            out@ == decorate_spec(s@.take(i as int)),
        decreases n - i,
    {
        let c = s.get_char(i);
        let ghost pre = s@.take(i as int);
        proof {
            assert(s@.take(i + 1) =~= pre + seq![c]);
            lemma_decorate_concat(pre, seq![c]);
        }
        if c == ornament_char() {
            out.append(red());
            out.append(s.substring_char(i, i + 1));
            out.append(green());
            proof {
                assert(s@.subrange(i as int, i + 1) =~= seq![c]);
                lemma_decorate_ornament_char();
                assert(out@ =~= decorate_spec(pre) + wrapped_ornament());
            }
        } else {
            out.append(s.substring_char(i, i + 1));
            proof {
                assert(s@.subrange(i as int, i + 1) =~= seq![c]);
                lemma_decorate_plain_char(c);
            }
        }
        i = i + 1;
    }
    proof {
        assert(s@.take(n as int) =~= s@);
    }
    out
}

} // verus!
