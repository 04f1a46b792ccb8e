//! Derivation of a URL slug from a post title.
//!
//! A slug is obtained by replacing every space in the title with the literal
//! substring "to" and then folding ASCII uppercase letters to lowercase.
//! The transformation is total: every title, including the empty one, has a
//! slug.

use vstd::prelude::*;
use vstd::std_specs::iter::IteratorSpec;

verus! {

/// ASCII case folding of one character: uppercase ASCII letters map to their
/// lowercase counterpart, every other character is unchanged.
pub open spec fn lower_char(c: char) -> char {
    if 'A' <= c && c <= 'Z' {
        (((c as u32) + 32) as u8) as char
    } else {
        c
    }
}

/// ASCII case folding of a character sequence, pointwise.
pub open spec fn lower_seq(s: Seq<char>) -> Seq<char> {
    s.map_values(|c: char| lower_char(c))
}

/// What one character of the title contributes before case folding: a space
/// becomes the two characters "to", anything else stays itself.
pub open spec fn replace_char(c: char) -> Seq<char> {
    if c == ' ' {
        seq!['t', 'o']
    } else {
        seq![c]
    }
}

/// The title with every space replaced by the substring "to".
pub open spec fn replace_spaces(s: Seq<char>) -> Seq<char>
    decreases s.len(),
{
    if s.len() == 0 {
        Seq::empty()
    } else {
        replace_char(s[0]) + replace_spaces(s.drop_first())
    }
}

/// The slug of a title: spaces replaced by "to", then lowercased.
pub open spec fn slug_of(title: Seq<char>) -> Seq<char> {
    lower_seq(replace_spaces(title))
}

/// `s` contains no space character.
pub open spec fn has_no_spaces(s: Seq<char>) -> bool {
    forall|i: int| 0 <= i < s.len() ==> s[i] != ' '
}

/// Every character of `s` is fixed by ASCII case folding.
pub open spec fn is_lower(s: Seq<char>) -> bool {
    forall|i: int| 0 <= i < s.len() ==> lower_char(s[i]) == s[i]
}

/// Replacement processes the title left to right: extending the title by one
/// character appends that character's contribution.
proof fn lemma_replace_spaces_snoc(s: Seq<char>, c: char)
    ensures
        replace_spaces(s.push(c)) =~= replace_spaces(s) + replace_char(c),
    decreases s.len(),
{
    if s.len() == 0 {
        assert(s.push(c).drop_first() =~= Seq::<char>::empty());
        assert(s.push(c)[0] == c);
        assert(replace_spaces(s.push(c)) == replace_char(c) + replace_spaces(
            s.push(c).drop_first(),
        ));
        assert(replace_spaces(Seq::<char>::empty()) =~= Seq::<char>::empty());
        assert(replace_spaces(s) =~= Seq::<char>::empty());
    } else {
        assert(s.push(c).drop_first() =~= s.drop_first().push(c));
        lemma_replace_spaces_snoc(s.drop_first(), c);
    }
}

/// Case folding distributes over concatenation.
proof fn lemma_lower_seq_add(a: Seq<char>, b: Seq<char>)
    ensures
        lower_seq(a + b) =~= lower_seq(a) + lower_seq(b),
{
}

/// Extending the title by one character extends its slug by that character's
/// lowercased contribution.
proof fn lemma_slug_of_snoc(s: Seq<char>, c: char)
    ensures
        slug_of(s.push(c)) =~= slug_of(s) + lower_seq(replace_char(c)),
{
    lemma_replace_spaces_snoc(s, c);
    lemma_lower_seq_add(replace_spaces(s), replace_char(c));
}

/// Replacement leaves a title unchanged when it has no spaces.
proof fn lemma_replace_spaces_no_spaces(s: Seq<char>)
    requires
        has_no_spaces(s),
    ensures
        replace_spaces(s) =~= s,
    decreases s.len(),
{
    if s.len() > 0 {
        assert(has_no_spaces(s.drop_first())) by {
            assert(forall|i: int|
                0 <= i < s.drop_first().len() ==> s.drop_first()[i] == s[i + 1]);
        }
        lemma_replace_spaces_no_spaces(s.drop_first());
        assert(s[0] != ' ');
        assert(replace_spaces(s) =~= seq![s[0]] + s.drop_first());
    }
}

/// Replacement never shortens a title, and strictly lengthens one that
/// contains a space.
proof fn lemma_replace_spaces_len(s: Seq<char>)
    ensures
        replace_spaces(s).len() >= s.len(),
        (exists|j: int| 0 <= j < s.len() && s[j] == ' ') ==> replace_spaces(s).len() > s.len(),
    decreases s.len(),
{
    if s.len() > 0 {
        lemma_replace_spaces_len(s.drop_first());
        if exists|j: int| 0 <= j < s.len() && s[j] == ' ' {
            let j = choose|j: int| 0 <= j < s.len() && s[j] == ' ';
            if j == 0 {
                assert(replace_char(s[0]).len() == 2);
            } else {
                assert(s.drop_first()[j - 1] == s[j]);
                assert(exists|k: int|
                    0 <= k < s.drop_first().len() && s.drop_first()[k] == ' ');
            }
        }
    }
}

/// A title is a fixed point of slug derivation exactly when it contains no
/// space and is already in lowercase.
pub proof fn lemma_slug_fixed_point(t: Seq<char>)
    ensures
        slug_of(t) == t <==> (has_no_spaces(t) && is_lower(t)),
{
    if has_no_spaces(t) && is_lower(t) {
        lemma_replace_spaces_no_spaces(t);
        assert(lower_seq(t) =~= t);
        assert(slug_of(t) =~= t);
    }
    if slug_of(t) == t {
        assert(slug_of(t).len() == replace_spaces(t).len());
        if !has_no_spaces(t) {
            assert(exists|j: int| 0 <= j < t.len() && t[j] == ' ');
            lemma_replace_spaces_len(t);
            assert(false);
        }
        lemma_replace_spaces_no_spaces(t);
        assert(forall|i: int| 0 <= i < t.len() ==> lower_char(t[i]) == t[i]) by {
            assert(forall|i: int|
                0 <= i < t.len() ==> slug_of(t)[i] == lower_char(replace_spaces(t)[i]));
        }
    }
}

/// No character of a replaced title is a space: spaces were turned into
/// "to", every other character was not a space to begin with.
proof fn lemma_replace_spaces_no_space_chars(t: Seq<char>)
    ensures
        forall|i: int| 0 <= i < replace_spaces(t).len() ==> replace_spaces(t)[i] != ' ',
    decreases t.len(),
{
    if t.len() > 0 {
        lemma_replace_spaces_no_space_chars(t.drop_first());
        assert(forall|i: int|
            0 <= i < replace_spaces(t).len() ==> replace_spaces(t)[i] == (if i < replace_char(
                t[0],
            ).len() {
                replace_char(t[0])[i]
            } else {
                replace_spaces(t.drop_first())[i - replace_char(t[0]).len()]
            }));
    }
}

/// Slug derivation is idempotent: a slug, no matter the title it came from,
/// has no spaces and is already lowercase, so it is its own slug.
pub proof fn lemma_slug_idempotent(t: Seq<char>)
    ensures
        slug_of(slug_of(t)) == slug_of(t),
{
    lemma_replace_spaces_no_space_chars(t);
    assert(has_no_spaces(slug_of(t))) by {
        assert(forall|i: int|
            0 <= i < slug_of(t).len() ==> slug_of(t)[i] == lower_char(replace_spaces(t)[i]));
    }
    assert(is_lower(slug_of(t))) by {
        assert(forall|i: int|
            0 <= i < slug_of(t).len() ==> slug_of(t)[i] == lower_char(replace_spaces(t)[i]));
        assert(forall|i: int| 0 <= i < slug_of(t).len() ==> lower_char(slug_of(t)[i]) == slug_of(
            t,
        )[i]) by {
            assert(forall|c: char| lower_char(lower_char(c)) == lower_char(c));
        }
    }
    lemma_slug_fixed_point(slug_of(t));
}

/// Appends one character to a string.
///
/// Relies on `String::push`: it appends exactly the given character at the
/// end of the string.
#[verifier::external_body]
fn push_char(s: &mut String, c: char)
    ensures
        final(s)@ == old(s)@.push(c),
{
    s.push(c);
}

/// Executable ASCII case folding of one character.
fn to_lower_char(c: char) -> (r: char)
    ensures
        r == lower_char(c),
{
    if 'A' <= c && c <= 'Z' {
        (((c as u32) + 32) as u8) as char
    } else {
        c
    }
}

/// Computes the slug of a title: every space becomes "to", uppercase ASCII
/// letters become lowercase, everything else is kept.
pub fn slugify_title(title: &str) -> (r: String)
    ensures
        r@ == slug_of(title@),
{
    let ghost t = title@;
    let mut out = String::new();
    let mut it = title.chars();
    let ghost mut i: int = 0;
    proof {
        assert(t.skip(0) =~= t);
        assert(t.take(0) =~= Seq::<char>::empty());
    }
    loop
        invariant
            t == title@,
            0 <= i <= t.len(),
            it.remaining() =~= t.skip(i),
            out@ =~= slug_of(t.take(i)),
        decreases t.len() - i,
    {
        match it.next() {
            Some(c) => {
                proof {
                    assert(t.skip(i).len() > 0);
                    assert(c == t.skip(i)[0]);
                    assert(c == t[i]);
                }
                if c == ' ' {
                    push_char(&mut out, 't');
                    push_char(&mut out, 'o');
                } else {
                    push_char(&mut out, to_lower_char(c));
                }
                proof {
                    lemma_slug_of_snoc(t.take(i), t[i]);
                    assert(t.take(i).push(t[i]) =~= t.take(i + 1));
                    assert(t.skip(i).drop_first() =~= t.skip(i + 1));
                    assert(out@ =~= slug_of(t.take(i)) + lower_seq(replace_char(t[i])));
                    i = i + 1;
                }
            },
            None => {
                proof {
                    assert(t.skip(i).len() == 0);
                    assert(i == t.len());
                    assert(t.take(i) =~= t);
                    assert(out@ == slug_of(t));
                }
                return out;
            },
        }
    }
}

} // verus!
