//! Characters and text: conversions between strings and character vectors,
//! the two Unicode classifications the version-name rules use, and
//! replacement of every occurrence of a pattern.
use vstd::prelude::*;

verus! {

/// Whether `char::is_alphanumeric` holds of `c` (Unicode `Alphabetic` or a
/// numeric general category).
pub uninterp spec fn char_is_alphanumeric(c: char) -> bool;

/// Whether `char::is_numeric` holds of `c` (Unicode general categories
/// `Nd`, `Nl` or `No`).
pub uninterp spec fn char_is_numeric(c: char) -> bool;

/// Calls `char::is_alphanumeric`.  Claimed: the answer depends on `c` alone,
/// and is named `char_is_alphanumeric(c)`; its Unicode tables are not stated.
#[verifier::external_body]
pub(crate) fn is_alphanumeric(c: char) -> (r: bool)
    ensures
        r == char_is_alphanumeric(c),
{
    c.is_alphanumeric()
}

/// Calls `char::is_numeric`.  Claimed: the answer depends on `c` alone, and
/// is named `char_is_numeric(c)`; its Unicode tables are not stated.
#[verifier::external_body]
pub(crate) fn is_numeric(c: char) -> (r: bool)
    ensures
        r == char_is_numeric(c),
{
    c.is_numeric()
}

/// The characters of `s`, in order.
pub fn chars_of(s: &str) -> (v: Vec<char>)
    ensures
        v@ == s@,
{
    let mut v: Vec<char> = Vec::new();
    for c in it: s.chars()
        invariant
            it.seq() == s@,
            v@ == it.seq().take(it.index() as int),
        ensures
            v@ == s@,
    {
        v.push(c);
        assert(it.seq().take(it.index() + 1) =~= v@);
    }
    v
}

/// Calls `FromIterator<&char> for String` (`collect`).  Claimed: the string
/// holds exactly the characters of `v`, in order.
#[verifier::external_body]
pub(crate) fn string_from_chars(v: &Vec<char>) -> (s: String)
    ensures
        s@ == v@,
{
    v.iter().collect()
}

/// An owned copy of `s`.
pub fn text(s: &str) -> (r: String)
    ensures
        r@ == s@,
{
    s.to_owned()
}

/// Whether `a` and `b` hold the same characters.
pub fn same_chars(a: &Vec<char>, b: &Vec<char>) -> (r: bool)
    ensures
        r == (a@ == b@),
{
    if a.len() != b.len() {
        return false;
    }
    let mut k: usize = 0;
    while k < a.len()
        invariant
            k <= a.len(),
            a.len() == b.len(),
            forall|j: int| 0 <= j < k ==> a@[j] == b@[j],
        decreases a.len() - k,
    {
        if a[k] != b[k] {
            return false;
        }
        k = k + 1;
    }
    assert(a@ =~= b@);
    true
}

/// The text `s` with every occurrence of `from` replaced by `to`, searching
/// from the left and never overlapping one replaced occurrence with the
/// next.  An empty `from` occurs before every character and at the end.
pub open spec fn replace_all(s: Seq<char>, from: Seq<char>, to: Seq<char>) -> Seq<char>
    decreases s.len(),
{
    if from.len() == 0 {
        if s.len() == 0 {
            to
        } else {
            to + seq![s[0]] + replace_all(s.drop_first(), from, to)
        }
    } else if s.len() < from.len() {
        s
    } else if s.take(from.len() as int) == from {
        to + replace_all(s.skip(from.len() as int), from, to)
    } else {
        seq![s[0]] + replace_all(s.drop_first(), from, to)
    }
}

/// Replacing a pattern by itself changes nothing.
pub proof fn lemma_replace_with_itself(s: Seq<char>, pattern: Seq<char>)
    ensures
        replace_all(s, pattern, pattern) == s,
    decreases s.len(),
{
    if pattern.len() == 0 {
        if s.len() > 0 {
            lemma_replace_with_itself(s.drop_first(), pattern);
            assert(s =~= pattern + seq![s[0]] + s.drop_first());
        } else {
            assert(s =~= pattern);
        }
    } else if s.len() < pattern.len() {
    } else if s.take(pattern.len() as int) == pattern {
        lemma_replace_with_itself(s.skip(pattern.len() as int), pattern);
        assert(s =~= s.take(pattern.len() as int) + s.skip(pattern.len() as int));
    } else {
        lemma_replace_with_itself(s.drop_first(), pattern);
        assert(s =~= seq![s[0]] + s.drop_first());
    }
}

/// Whether `pattern` occurs in `s`.
pub open spec fn occurs_in(s: Seq<char>, pattern: Seq<char>) -> bool {
    exists|k: int| 0 <= k && k + pattern.len() <= s.len() && #[trigger] s.subrange(k, k + pattern.len()) == pattern
}

/// Text in which a (non-empty) pattern does not occur is left as it is.
pub proof fn lemma_replace_absent(s: Seq<char>, from: Seq<char>, to: Seq<char>)
    requires
        from.len() > 0,
        !occurs_in(s, from),
    ensures
        replace_all(s, from, to) == s,
    decreases s.len(),
{
    if s.len() >= from.len() {
        assert(s.subrange(0int, 0int + from.len()) =~= s.take(from.len() as int));
        assert(s.take(from.len() as int) != from);
        let rest = s.drop_first();
        assert forall|k: int| 0 <= k && k + from.len() <= rest.len() implies #[trigger] rest.subrange(
            k,
            k + from.len(),
        ) != from by {
            assert(rest.subrange(k, k + from.len()) =~= s.subrange(k + 1, k + 1 + from.len()));
        }
        lemma_replace_absent(rest, from, to);
        assert(s =~= seq![s[0]] + s.drop_first());
    }
}

/// Replacement finds the leftmost occurrence of a (non-empty) pattern,
/// keeps the text before it, puts the replacement in its place, and goes on
/// replacing in the text after it: every occurrence is replaced, not only
/// the first.
pub proof fn lemma_replace_leftmost(a: Seq<char>, from: Seq<char>, b: Seq<char>, to: Seq<char>)
    requires
        from.len() > 0,
        forall|k: int|
            0 <= k < a.len() ==> #[trigger] (a + from + b).subrange(k, k + from.len()) != from,
    ensures
        replace_all(a + from + b, from, to) == a + to + replace_all(b, from, to),
    decreases a.len(),
{
    let s = a + from + b;
    if a.len() == 0 {
        assert(s =~= from + b);
        assert(s.take(from.len() as int) =~= from);
        assert(s.skip(from.len() as int) =~= b);
        assert(a + to =~= to);
    } else {
        assert(s.subrange(0, from.len() as int) =~= s.take(from.len() as int));
        assert(s.subrange(0int, 0int + from.len()) != from);
        let a2 = a.drop_first();
        assert(s.drop_first() =~= a2 + from + b);
        assert forall|k: int| 0 <= k < a2.len() implies #[trigger] (a2 + from + b).subrange(
            k,
            k + from.len(),
        ) != from by {
            assert((a2 + from + b).subrange(k, k + from.len()) =~= s.subrange(
                k + 1,
                k + 1 + from.len(),
            ));
        }
        lemma_replace_leftmost(a2, from, b, to);
        assert(a + to =~= seq![a[0]] + (a2 + to));
        assert(a + to + replace_all(b, from, to) =~= seq![a[0]] + (a2 + to + replace_all(b, from, to)));
    }
}

/// Appends the characters of `src` to `dst`.
fn extend_chars(dst: &mut Vec<char>, src: &Vec<char>)
    ensures
        final(dst)@ == old(dst)@ + src@,
{
    let mut k: usize = 0;
    while k < src.len()
        invariant
            k <= src.len(),
            dst@ == old(dst)@ + src@.take(k as int),
        decreases src.len() - k,
    {
        dst.push(src[k]);
        k = k + 1;
        assert(dst@ =~= old(dst)@ + src@.take(k as int));
    }
    assert(src@.take(k as int) =~= src@);
}

/// Whether `pattern` occurs in `s` at position `at`.
fn occurs_at(s: &Vec<char>, at: usize, pattern: &Vec<char>) -> (r: bool)
    requires
        at + pattern.len() <= s.len(),
    ensures
        r == (s@.subrange(at as int, at + pattern.len()) == pattern@),
{
    let mut k: usize = 0;
    while k < pattern.len()
        invariant
            k <= pattern.len(),
            at + pattern.len() <= s.len(),
            forall|j: int| 0 <= j < k ==> s@[at + j] == pattern@[j],
        decreases pattern.len() - k,
    {
        if s[at + k] != pattern[k] {
            assert(s@.subrange(at as int, at + pattern.len())[k as int] != pattern@[k as int]);
            return false;
        }
        k = k + 1;
    }
    assert(s@.subrange(at as int, at + pattern.len()) =~= pattern@);
    true
}

/// `str::replace`: every occurrence of `from` in `s` replaced by `to`.
pub fn replace(s: &str, from: &str, to: &str) -> (r: String)
    ensures
        r@ == replace_all(s@, from@, to@),
{
    let sv = chars_of(s);
    let fv = chars_of(from);
    let tv = chars_of(to);
    let mut out: Vec<char> = Vec::new();
    let mut i: usize = 0;
    assert(sv@.skip(0) =~= sv@);
    if fv.len() == 0 {
        while i < sv.len()
            invariant
                fv@.len() == 0,
                i <= sv.len(),
                out@ + replace_all(sv@.skip(i as int), fv@, tv@) == replace_all(sv@, fv@, tv@),
            decreases sv.len() - i,
        {
            let ghost rest = sv@.skip(i as int);
            assert(rest.drop_first() =~= sv@.skip(i + 1));
            assert(rest[0] == sv@[i as int]);
            extend_chars(&mut out, &tv);
            out.push(sv[i]);
            i = i + 1;
            assert(out@ + replace_all(sv@.skip(i as int), fv@, tv@) =~= replace_all(sv@, fv@, tv@));
        }
        assert(sv@.skip(i as int) =~= Seq::<char>::empty());
        extend_chars(&mut out, &tv);
    } else {
        while i < sv.len()
            invariant
                fv@.len() > 0,
                i <= sv.len(),
                out@ + replace_all(sv@.skip(i as int), fv@, tv@) == replace_all(sv@, fv@, tv@),
            decreases sv.len() - i,
        {
            let ghost rest = sv@.skip(i as int);
            if fv.len() <= sv.len() - i && occurs_at(&sv, i, &fv) {
                assert(rest.take(fv@.len() as int) =~= sv@.subrange(i as int, i + fv@.len()));
                assert(rest.skip(fv@.len() as int) =~= sv@.skip(i + fv@.len()));
                extend_chars(&mut out, &tv);
                i = i + fv.len();
                assert(out@ + replace_all(sv@.skip(i as int), fv@, tv@) =~= replace_all(
                    sv@,
                    fv@,
                    tv@,
                ));
            } else {
                proof {
                    assert(rest.drop_first() =~= sv@.skip(i + 1));
                    assert(rest[0] == sv@[i as int]);
                    if rest.len() >= fv@.len() {
                        assert(rest.take(fv@.len() as int) =~= sv@.subrange(i as int, i + fv@.len()));
                    } else {
                        assert(rest =~= seq![rest[0]] + rest.drop_first());
                    }
                }
                out.push(sv[i]);
                i = i + 1;
                assert(out@ + replace_all(sv@.skip(i as int), fv@, tv@) =~= replace_all(
                    sv@,
                    fv@,
                    tv@,
                ));
            }
        }
        assert(sv@.skip(i as int) =~= Seq::<char>::empty());
    }
    assert(out@ =~= out@ + replace_all(Seq::<char>::empty(), fv@, tv@) || fv@.len() == 0);
    string_from_chars(&out)
}

} // verus!
