//! Version names (`v12`, `v12-some-name`), their numbers, the list of
//! versions in a workspace, and where the workspace is.
use vstd::prelude::*;
use crate::lexical::{char_seqs, lex_order, sort_lex};
use crate::paths::{
    file_name, join_path, parent, path_file_name_of, path_join, path_parent_of, string_seqs,
};
use crate::text::{char_is_alphanumeric, char_is_numeric, chars_of, is_alphanumeric, is_numeric};

verus! {

/// Why a text is not a version name.
#[derive(Debug, Clone, Copy, PartialEq, Eq, Structural)]
pub enum VersionNameError {
    /// A character is neither alphanumeric nor a hyphen.
    NotAlphanumericOrHyphen,
    /// The part before the first hyphen does not start with `v`.
    MissingLeadingV,
    /// Nothing follows the `v` before the first hyphen, or a character that
    /// does is not numeric.
    NoNumberAfterV,
}

/// Why a text holds no number, in the terms of `usize::from_str`.
#[derive(Debug, Clone, Copy, PartialEq, Eq, Structural)]
pub enum IntErrorKind {
    /// There are no characters.
    Empty,
    /// A character is not a decimal digit (a lone sign counts as one).
    InvalidDigit,
    /// The number is larger than `usize::MAX`.
    PosOverflow,
}

/// Why no version number could be read from a version name.
#[derive(Debug, Clone, Copy, PartialEq, Eq, Structural)]
pub enum VersionNumberError {
    /// The name does not start with `v`.
    MissingPrefix,
    /// What follows the `v`, up to the first hyphen, is not a number.
    InvalidNumber(IntErrorKind),
}

/// Why the number of the next version could not be found.
#[derive(Debug, Clone, Copy, PartialEq, Eq, Structural)]
pub enum NextVersionError {
    /// There are no versions yet.
    NoVersionsFound,
    /// The last version's path has no file name.
    NoFileName,
    /// The last version's name holds no number.
    VersionNumber(VersionNumberError),
    /// The last version's number is `usize::MAX`.
    NumberOverflow,
}

/// Why no dictionary root directory was found.
#[derive(Debug, Clone, Copy, PartialEq, Eq, Structural)]
pub enum RootDirError {
    /// The current directory is not the root, and has no parent.
    NoParentDirectory,
    /// Neither the current directory nor its parent is the root.
    NotFound,
}

/// One child of a directory, as a directory listing gives it.
#[derive(Debug)]
pub struct DirEntry {
    pub name: String,
    pub is_dir: bool,
}

/// The name that the dictionary's root directory has.
pub open spec fn dictionary_root_name() -> Seq<char> {
    seq!['N', 'a', 'n', 'u', 'a', 'k', '-', 'D', 'i', 'c', 't', 'i', 'o', 'n', 'a', 'r', 'y']
}

/// The number of characters before the first hyphen.
pub open spec fn chunk_len(s: Seq<char>) -> nat
    decreases s.len(),
{
    if s.len() == 0 {
        0
    } else if s[0] == '-' {
        0
    } else {
        1 + chunk_len(s.drop_first())
    }
}

/// The text before the first hyphen (all of it when there is none).
pub open spec fn first_chunk(s: Seq<char>) -> Seq<char> {
    s.take(chunk_len(s) as int)
}

/// The rules of version names, given for each character of `name` whether
/// it is alphanumeric and whether it is numeric: every character is
/// alphanumeric or a hyphen; the part before the first hyphen starts with
/// `v`; at least one character follows the `v` in that part, and every one
/// of them is numeric.  The result names the first rule broken.
pub open spec fn version_name_rules(
    name: Seq<char>,
    alphanumeric: Seq<bool>,
    numeric: Seq<bool>,
) -> Result<(), VersionNameError> {
    let n = chunk_len(name);
    if !(forall|i: int| 0 <= i < name.len() ==> #[trigger] alphanumeric[i] || name[i] == '-') {
        Err(VersionNameError::NotAlphanumericOrHyphen)
    } else if !(n > 0 && name[0] == 'v') {
        Err(VersionNameError::MissingLeadingV)
    } else if !(n >= 2 && forall|i: int| 1 <= i < n ==> #[trigger] numeric[i]) {
        Err(VersionNameError::NoNumberAfterV)
    } else {
        Ok(())
    }
}

/// Whether `name` is a version name, and if not, the first rule it breaks,
/// with `char::is_alphanumeric` and `char::is_numeric` as the classes.
pub open spec fn version_name_check(name: Seq<char>) -> Result<(), VersionNameError> {
    version_name_rules(
        name,
        name.map_values(|c: char| char_is_alphanumeric(c)),
        name.map_values(|c: char| char_is_numeric(c)),
    )
}

/// Whether `c` is one of the ASCII digits `0` to `9`.
pub open spec fn is_decimal_digit(c: char) -> bool {
    '0' <= c <= '9'
}

/// Reads decimal digits left to right onto `acc`, stopping at the first
/// character that is not a digit or that makes the number exceed
/// `usize::MAX`.
pub open spec fn parse_digits(d: Seq<char>, acc: nat) -> Result<usize, IntErrorKind>
    decreases d.len(),
{
    if d.len() == 0 {
        Ok(acc as usize)
    } else if !is_decimal_digit(d[0]) {
        Err(IntErrorKind::InvalidDigit)
    } else if acc * 10 + (d[0] as nat - '0' as nat) > usize::MAX {
        Err(IntErrorKind::PosOverflow)
    } else {
        parse_digits(d.drop_first(), (acc * 10 + (d[0] as nat - '0' as nat)) as nat)
    }
}

/// `usize::from_str`: an optional `+`, then decimal digits.
pub open spec fn parse_usize(s: Seq<char>) -> Result<usize, IntErrorKind> {
    if s.len() == 0 {
        Err(IntErrorKind::Empty)
    } else if s.len() == 1 && (s[0] == '+' || s[0] == '-') {
        Err(IntErrorKind::InvalidDigit)
    } else if s[0] == '+' {
        parse_digits(s.drop_first(), 0)
    } else {
        parse_digits(s, 0)
    }
}

/// The number in a version name: what follows the leading `v`, up to the
/// first hyphen, read as a `usize`.
pub open spec fn version_number_of(name: Seq<char>) -> Result<usize, VersionNumberError> {
    if name.len() > 0 && name[0] == 'v' {
        match parse_usize(first_chunk(name.drop_first())) {
            Ok(n) => Ok(n),
            Err(kind) => Err(VersionNumberError::InvalidNumber(kind)),
        }
    } else {
        Err(VersionNumberError::MissingPrefix)
    }
}

/// The number after the number in the version name `last_version_name`.
pub open spec fn number_after(last_version_name: Seq<char>) -> Result<usize, NextVersionError> {
    match version_number_of(last_version_name) {
        Err(e) => Err(NextVersionError::VersionNumber(e)),
        Ok(n) => if n == usize::MAX {
            Err(NextVersionError::NumberOverflow)
        } else {
            Ok((n + 1) as usize)
        },
    }
}

/// The number after the number of the last version in `versions`.
pub open spec fn next_version_number_of(versions: Seq<Seq<char>>) -> Result<usize, NextVersionError> {
    if versions.len() == 0 {
        Err(NextVersionError::NoVersionsFound)
    } else {
        match path_file_name_of(versions.last()) {
            None => Err(NextVersionError::NoFileName),
            Some(name) => number_after(name),
        }
    }
}

/// The paths below `root` of the entries that are directories with version
/// names, in listing order.
pub open spec fn version_dirs(root: Seq<char>, entries: Seq<DirEntry>) -> Seq<Seq<char>>
    decreases entries.len(),
{
    if entries.len() == 0 {
        Seq::empty()
    } else {
        let rest = version_dirs(root, entries.drop_last());
        let e = entries.last();
        if e.is_dir && version_name_check(e.name@) is Ok {
            rest.push(path_join(root, e.name@))
        } else {
            rest
        }
    }
}

/// Whether `path` is the dictionary's root: a directory named
/// `Nanuak-Dictionary`.
pub open spec fn is_dictionary_root(path: Seq<char>, is_dir: bool) -> bool {
    is_dir && path_file_name_of(path) == Some(dictionary_root_name())
}

/// The dictionary root, given the current directory, whether it is the
/// root, its parent (if it has one) and whether that is the root: the
/// current directory if it is the root, else its parent if that is.
pub open spec fn root_choice_rules(
    current_dir: Seq<char>,
    current_is_root: bool,
    parent: Option<Seq<char>>,
    parent_is_root: bool,
) -> Result<Seq<char>, RootDirError> {
    if current_is_root {
        Ok(current_dir)
    } else {
        match parent {
            None => Err(RootDirError::NoParentDirectory),
            Some(p) => if parent_is_root {
                Ok(p)
            } else {
                Err(RootDirError::NotFound)
            },
        }
    }
}

/// The dictionary root, given the current directory (a directory when
/// `current_is_dir` holds) and whether its parent is a directory.
pub open spec fn dictionary_root_choice(
    current_dir: Seq<char>,
    current_is_dir: bool,
    parent_is_dir: bool,
) -> Result<Seq<char>, RootDirError> {
    root_choice_rules(
        current_dir,
        is_dictionary_root(current_dir, current_is_dir),
        path_parent_of(current_dir),
        match path_parent_of(current_dir) {
            Some(p) => is_dictionary_root(p, parent_is_dir),
            None => false,
        },
    )
}

/// A version name starts with `v`.
pub proof fn lemma_version_name_starts_with_v(name: Seq<char>)
    requires
        version_name_check(name) is Ok,
    ensures
        name.len() > 0 && name[0] == 'v',
{
}

/// Every version listed is a child of the root that is a directory with a
/// version name.
pub proof fn lemma_version_dirs_are_version_children(root: Seq<char>, entries: Seq<DirEntry>)
    ensures
        forall|p: Seq<char>| #[trigger]
            version_dirs(root, entries).contains(p) ==> exists|i: int|
                0 <= i < entries.len() && entries[i].is_dir && version_name_check(
                    (#[trigger] entries[i]).name@,
                ) is Ok && p == path_join(root, entries[i].name@),
    decreases entries.len(),
{
    if entries.len() > 0 {
        let rest = entries.drop_last();
        lemma_version_dirs_are_version_children(root, rest);
        assert forall|p: Seq<char>| #[trigger]
            version_dirs(root, entries).contains(p) implies exists|i: int|
                0 <= i < entries.len() && entries[i].is_dir && version_name_check(
                    (#[trigger] entries[i]).name@,
                ) is Ok && p == path_join(root, entries[i].name@) by {
            if version_dirs(root, rest).contains(p) {
                let i = choose|i: int|
                    0 <= i < rest.len() && rest[i].is_dir && version_name_check(
                        (#[trigger] rest[i]).name@,
                    ) is Ok && p == path_join(root, rest[i].name@);
                assert(entries[i] == rest[i]);
            } else {
                let last = entries.len() - 1;
                assert(entries[last] == entries.last());
            }
        }
    }
}

/// The versions of a workspace, as `get_versions` lists them, are in
/// lexicographic order, and each is a child of the root that is a directory
/// with a version name.
pub proof fn lemma_listed_versions(root: Seq<char>, entries: Seq<DirEntry>)
    ensures
        vstd::relations::sorted_by(version_dirs(root, entries).sort_by(lex_order()), lex_order()),
        forall|p: Seq<char>| #[trigger]
            version_dirs(root, entries).sort_by(lex_order()).contains(p) ==> exists|i: int|
                0 <= i < entries.len() && entries[i].is_dir && version_name_check(
                    (#[trigger] entries[i]).name@,
                ) is Ok && p == path_join(root, entries[i].name@),
{
    crate::lexical::lemma_lex_total_ordering();
    version_dirs(root, entries).lemma_sort_by_ensures(lex_order());
    lemma_version_dirs_are_version_children(root, entries);
}

/// A dictionary root that is found is a directory named `Nanuak-Dictionary`:
/// the current directory, or its parent.
pub proof fn lemma_dictionary_root_found(current_dir: Seq<char>, current_is_dir: bool, parent_is_dir: bool)
    requires
        dictionary_root_choice(current_dir, current_is_dir, parent_is_dir) is Ok,
    ensures
        ({
            let root = dictionary_root_choice(current_dir, current_is_dir, parent_is_dir)->Ok_0;
            &&& path_file_name_of(root) == Some(dictionary_root_name())
            &&& (root == current_dir && current_is_dir) || (Some(root) == path_parent_of(current_dir)
                && parent_is_dir)
        }),
{
}

/// Every child of the root that is a directory with a version name is
/// listed among the versions, before and after sorting.
pub proof fn lemma_version_dirs_complete(root: Seq<char>, entries: Seq<DirEntry>)
    ensures
        forall|i: int|
            0 <= i < entries.len() && entries[i].is_dir && version_name_check(
                (#[trigger] entries[i]).name@,
            ) is Ok ==> version_dirs(root, entries).contains(path_join(root, entries[i].name@))
                && version_dirs(root, entries).sort_by(lex_order()).contains(
                path_join(root, entries[i].name@),
            ),
    decreases entries.len(),
{
    let listed = version_dirs(root, entries);
    if entries.len() > 0 {
        let rest = entries.drop_last();
        lemma_version_dirs_complete(root, rest);
        assert forall|i: int|
            0 <= i < entries.len() && entries[i].is_dir && version_name_check(
                (#[trigger] entries[i]).name@,
            ) is Ok implies listed.contains(path_join(root, entries[i].name@)) by {
            let p = path_join(root, entries[i].name@);
            if i < rest.len() {
                assert(entries[i] == rest[i]);
                let j = choose|j: int| 0 <= j < version_dirs(root, rest).len() && version_dirs(root, rest)[j] == p;
                if entries.last().is_dir && version_name_check(entries.last().name@) is Ok {
                    assert(listed[j] == p);
                }
            } else {
                assert(entries[i] == entries.last());
                assert(listed[listed.len() - 1] == p);
            }
        }
    }
    crate::lexical::lemma_lex_total_ordering();
    crate::lexical::lemma_sorted_lex(listed);
    listed.to_multiset_ensures();
    listed.sort_by(lex_order()).to_multiset_ensures();
    assert forall|p: Seq<char>| listed.contains(p) implies #[trigger] listed.sort_by(
        lex_order(),
    ).contains(p) by {
        assert(listed.to_multiset().count(p) > 0);
    }
}

/// The dictionary root is found by the names of the current directory and
/// its parent: the current directory where it is a directory named
/// `Nanuak-Dictionary`; else its parent `parent` where that is one; else
/// there is no parent to look at, or the root is not found.
pub proof fn lemma_dictionary_root_choice_rules(
    current_dir: Seq<char>,
    current_is_dir: bool,
    parent_is_dir: bool,
    parent: Seq<char>,
)
    ensures
        current_is_dir && path_file_name_of(current_dir) == Some(dictionary_root_name())
            ==> dictionary_root_choice(current_dir, current_is_dir, parent_is_dir) == Ok::<
            Seq<char>,
            RootDirError,
        >(current_dir),
        !(current_is_dir && path_file_name_of(current_dir) == Some(dictionary_root_name()))
            && path_parent_of(current_dir) is None ==> dictionary_root_choice(
            current_dir,
            current_is_dir,
            parent_is_dir,
        ) == Err::<Seq<char>, RootDirError>(RootDirError::NoParentDirectory),
        !(current_is_dir && path_file_name_of(current_dir) == Some(dictionary_root_name()))
            && path_parent_of(current_dir) == Some(parent) && parent_is_dir && path_file_name_of(
            parent,
        ) == Some(dictionary_root_name()) ==> dictionary_root_choice(
            current_dir,
            current_is_dir,
            parent_is_dir,
        ) == Ok::<Seq<char>, RootDirError>(parent),
        !(current_is_dir && path_file_name_of(current_dir) == Some(dictionary_root_name()))
            && path_parent_of(current_dir) == Some(parent) && !(parent_is_dir && path_file_name_of(
            parent,
        ) == Some(dictionary_root_name())) ==> dictionary_root_choice(
            current_dir,
            current_is_dir,
            parent_is_dir,
        ) == Err::<Seq<char>, RootDirError>(RootDirError::NotFound),
{
}

/// The decimal digit for `d` (below ten).
pub open spec fn digit_char(d: nat) -> char {
    ('0' as nat + d) as char
}

/// The decimal numeral for `n`, without leading zeros.
pub open spec fn decimal(n: nat) -> Seq<char>
    decreases n,
{
    if n < 10 {
        seq![digit_char(n)]
    } else {
        decimal(n / 10).push(digit_char(n % 10))
    }
}

proof fn lemma_decimal_digits(n: nat)
    ensures
        decimal(n).len() > 0,
        forall|i: int| 0 <= i < decimal(n).len() ==> is_decimal_digit(#[trigger] decimal(n)[i]),
    decreases n,
{
    if n >= 10 {
        lemma_decimal_digits(n / 10);
    }
}

proof fn lemma_parse_digits_push(s: Seq<char>, acc: nat, v: usize, c: char)
    requires
        acc <= usize::MAX,
        parse_digits(s, acc) == Ok::<usize, IntErrorKind>(v),
        is_decimal_digit(c),
        v * 10 + (c as nat - '0' as nat) <= usize::MAX,
    ensures
        parse_digits(s.push(c), acc) == Ok::<usize, IntErrorKind>((v * 10 + (c as nat - '0' as nat)) as usize),
    decreases s.len(),
{
    let t = s.push(c);
    if s.len() > 0 {
        let next = (acc * 10 + (s[0] as nat - '0' as nat)) as nat;
        assert(t[0] == s[0]);
        assert(t.drop_first() =~= s.drop_first().push(c));
        assert(parse_digits(s, acc) == parse_digits(s.drop_first(), next));
        lemma_parse_digits_push(s.drop_first(), next, v, c);
        assert(parse_digits(t, acc) == parse_digits(t.drop_first(), next));
    } else {
        let next = (acc * 10 + (c as nat - '0' as nat)) as nat;
        assert(acc == v);
        assert(t[0] == c);
        assert(t.drop_first() =~= Seq::<char>::empty());
        assert(parse_digits(t.drop_first(), next) == Ok::<usize, IntErrorKind>(next as usize));
        assert(parse_digits(t, acc) == parse_digits(t.drop_first(), next));
    }
}

/// The number that the decimal digits `d` spell (leading zeros allowed).
pub open spec fn digits_value(d: Seq<char>) -> nat
    decreases d.len(),
{
    if d.len() == 0 {
        0
    } else {
        digits_value(d.drop_last()) * 10 + (d.last() as nat - '0' as nat) as nat
    }
}

/// Whether every character of `d` is an ASCII decimal digit.
pub open spec fn all_decimal_digits(d: Seq<char>) -> bool {
    forall|i: int| 0 <= i < d.len() ==> is_decimal_digit(#[trigger] d[i])
}

/// `k` zeros.
pub open spec fn zeros(k: nat) -> Seq<char> {
    Seq::new(k, |i: int| '0')
}

/// Decimal digits that spell a number that fits in a `usize` are read as
/// that number.
pub proof fn lemma_parse_digits_value(d: Seq<char>)
    requires
        all_decimal_digits(d),
        digits_value(d) <= usize::MAX,
    ensures
        parse_digits(d, 0) == Ok::<usize, IntErrorKind>(digits_value(d) as usize),
    decreases d.len(),
{
    if d.len() == 0 {
    } else {
        let front = d.drop_last();
        let c = d.last();
        assert(is_decimal_digit(d[d.len() - 1]));
        assert forall|i: int| 0 <= i < front.len() implies is_decimal_digit(#[trigger] front[i]) by {
            assert(front[i] == d[i]);
        }
        lemma_parse_digits_value(front);
        lemma_parse_digits_push(front, 0, digits_value(front) as usize, c);
        assert(front.push(c) =~= d);
    }
}

proof fn lemma_decimal_value(n: nat)
    ensures
        digits_value(decimal(n)) == n,
    decreases n,
{
    if n < 10 {
        assert(digit_char(n) as nat == '0' as nat + n);
        assert(decimal(n).drop_last() =~= Seq::<char>::empty());
        assert(digits_value(decimal(n).drop_last()) == 0);
        assert(decimal(n).last() == digit_char(n));
    } else {
        lemma_decimal_value(n / 10);
        assert(decimal(n).last() == digit_char(n % 10));
        assert(digit_char(n % 10) as nat == '0' as nat + n % 10);
        assert(decimal(n).drop_last() =~= decimal(n / 10));
        assert((n / 10) * 10 + n % 10 == n) by (nonlinear_arith);
    }
}

proof fn lemma_zeros_value(k: nat, d: Seq<char>)
    ensures
        digits_value(zeros(k) + d) == digits_value(d),
        all_decimal_digits(d) ==> all_decimal_digits(zeros(k) + d),
    decreases d.len() + k,
{
    if d.len() == 0 {
        if k > 0 {
            lemma_zeros_value((k - 1) as nat, d);
            assert((zeros(k) + d).drop_last() =~= zeros((k - 1) as nat) + d);
            assert((zeros(k) + d).last() == '0');
        } else {
            assert(zeros(k) + d =~= d);
        }
    } else {
        lemma_zeros_value(k, d.drop_last());
        assert((zeros(k) + d).drop_last() =~= zeros(k) + d.drop_last());
        assert((zeros(k) + d).last() == d.last());
    }
    if all_decimal_digits(d) {
        assert forall|i: int| 0 <= i < (zeros(k) + d).len() implies is_decimal_digit(
            #[trigger] (zeros(k) + d)[i],
        ) by {
            if i >= k {
                assert((zeros(k) + d)[i] == d[i - k]);
            }
        }
    }
}

/// A version name made of `v` and decimal digits that spell a number that
/// fits in a `usize`, and optionally a hyphen and more, holds that number.
pub proof fn lemma_version_number_of_digits(d: Seq<char>, rest: Seq<char>)
    requires
        d.len() > 0,
        all_decimal_digits(d),
        digits_value(d) <= usize::MAX,
    ensures
        version_number_of(seq!['v'] + d) == Ok::<usize, VersionNumberError>(digits_value(d) as usize),
        version_number_of(seq!['v'] + d + seq!['-'] + rest) == Ok::<usize, VersionNumberError>(
            digits_value(d) as usize,
        ),
{
    lemma_parse_digits_value(d);
    assert(is_decimal_digit(d[0]));
    assert forall|k: int| 0 <= k < d.len() implies d[k] != '-' by {
        assert(is_decimal_digit(d[k]));
    }
    let plain = seq!['v'] + d;
    assert(plain.drop_first() =~= d);
    lemma_chunk_len(d, d.len() as int);
    assert(d.take(d.len() as int) =~= d);
    let longer = seq!['v'] + d + seq!['-'] + rest;
    let tail = longer.drop_first();
    assert(tail =~= d + seq!['-'] + rest);
    assert forall|k: int| 0 <= k < d.len() implies tail[k] != '-' by {
        assert(tail[k] == d[k]);
    }
    assert(tail[d.len() as int] == '-');
    lemma_chunk_len(tail, d.len() as int);
    assert(tail.take(d.len() as int) =~= d);
}

/// The name that the prompt for version `n` hints at, `v{n}`, possibly with
/// leading zeros (`v005`) and a hyphen and more after the number, holds `n`.
pub proof fn lemma_version_number_of_numbered_name(n: usize, padding: nat, rest: Seq<char>)
    ensures
        version_number_of(seq!['v'] + zeros(padding) + decimal(n as nat)) == Ok::<
            usize,
            VersionNumberError,
        >(n),
        version_number_of(seq!['v'] + zeros(padding) + decimal(n as nat) + seq!['-'] + rest) == Ok::<
            usize,
            VersionNumberError,
        >(n),
{
    let d = zeros(padding) + decimal(n as nat);
    lemma_decimal_digits(n as nat);
    lemma_decimal_value(n as nat);
    lemma_zeros_value(padding, decimal(n as nat));
    lemma_version_number_of_digits(d, rest);
    assert(seq!['v'] + zeros(padding) + decimal(n as nat) =~= seq!['v'] + d);
    assert(seq!['v'] + zeros(padding) + decimal(n as nat) + seq!['-'] + rest =~= seq!['v'] + d
        + seq!['-'] + rest);
}

/// An accepted version name whose characters after the `v`, up to the first
/// hyphen, are ASCII digits that spell a number that fits in a `usize`,
/// holds that number.  (The rules also accept other Unicode numerals, and
/// numbers too large for a `usize`; those names hold no number.)
pub proof fn lemma_accepted_name_holds_number(name: Seq<char>)
    requires
        version_name_check(name) is Ok,
        all_decimal_digits(name.subrange(1, chunk_len(name) as int)),
        digits_value(name.subrange(1, chunk_len(name) as int)) <= usize::MAX,
    ensures
        version_number_of(name) == Ok::<usize, VersionNumberError>(
            digits_value(name.subrange(1, chunk_len(name) as int)) as usize,
        ),
{
    let n = chunk_len(name);
    let d = name.subrange(1, n as int);
    let tail = name.drop_first();
    assert(name[0] == 'v');
    assert(chunk_len(name) == 1 + chunk_len(tail));
    lemma_chunk_len_le(tail);
    assert(first_chunk(tail) =~= d);
    lemma_parse_digits_value(d);
    assert(d[0] == name[1]);
    assert(is_decimal_digit(d[0]));
}

/// The number after a version is one more than the version's own number,
/// whatever its digits (`v9` is followed by `10`, `v19-x` by `20`), unless
/// that number is already `usize::MAX`; a name without a number gives its
/// reason.
pub proof fn lemma_number_after_is_successor(name: Seq<char>, n: usize, e: VersionNumberError)
    ensures
        version_number_of(name) == Ok::<usize, VersionNumberError>(n) && n < usize::MAX
            ==> number_after(name) == Ok::<usize, NextVersionError>((n + 1) as usize),
        version_number_of(name) == Ok::<usize, VersionNumberError>(usize::MAX) ==> number_after(
            name,
        ) == Err::<usize, NextVersionError>(NextVersionError::NumberOverflow),
        version_number_of(name) == Err::<usize, VersionNumberError>(e) ==> number_after(name)
            == Err::<usize, NextVersionError>(NextVersionError::VersionNumber(e)),
{
}

/// The next version number of a list of versions is one more than the
/// number of the version last in the list, read from its directory's name.
pub proof fn lemma_next_version_number_is_successor(versions: Seq<Seq<char>>, name: Seq<char>, n: usize)
    requires
        versions.len() > 0,
        path_file_name_of(versions.last()) == Some(name),
        version_number_of(name) == Ok::<usize, VersionNumberError>(n),
        n < usize::MAX,
    ensures
        next_version_number_of(versions) == Ok::<usize, NextVersionError>((n + 1) as usize),
{
}

/// The next version number, taken from the versions in lexicographic
/// order, is one more than the number in the name of the version that comes
/// last in that order among all of them; with no versions there is none.
pub proof fn lemma_next_version_after_greatest(versions: Seq<Seq<char>>, m: usize)
    ensures
        versions.len() == 0 ==> next_version_number_of(versions.sort_by(lex_order())) == Err::<
            usize,
            NextVersionError,
        >(NextVersionError::NoVersionsFound),
        next_version_number_of(versions.sort_by(lex_order())) == Ok::<usize, NextVersionError>(m)
            ==> exists|p: Seq<char>|
            #[trigger] versions.contains(p) && (forall|q: Seq<char>|
                #[trigger] versions.contains(q) ==> crate::lexical::lex_le(q, p))
                && path_file_name_of(p) is Some && version_number_of(path_file_name_of(p)->0) is Ok
                && m == version_number_of(path_file_name_of(p)->0)->Ok_0 + 1,
{
    let sorted = versions.sort_by(lex_order());
    crate::lexical::lemma_lex_total_ordering();
    crate::lexical::lemma_sorted_lex(versions);
    versions.to_multiset_ensures();
    sorted.to_multiset_ensures();
    if versions.len() == 0 {
        assert(sorted.len() == 0);
    }
    if next_version_number_of(sorted) == Ok::<usize, NextVersionError>(m) {
        let p = sorted.last();
        assert(sorted.contains(p)) by {
            assert(sorted[sorted.len() - 1] == p);
        }
        assert(sorted.to_multiset().count(p) > 0);
        assert(versions.contains(p));
        assert forall|q: Seq<char>| #[trigger] versions.contains(q) implies crate::lexical::lex_le(
            q,
            p,
        ) by {
            assert(versions.to_multiset().count(q) > 0);
            assert(sorted.contains(q));
            let j = choose|j: int| 0 <= j < sorted.len() && sorted[j] == q;
            if j == sorted.len() - 1 {
                crate::lexical::lemma_lex_reflexive(q);
            } else {
                assert(crate::lexical::lex_le(sorted[j], sorted[sorted.len() - 1]));
            }
        }
    }
}

/// A version that comes no earlier than every other comes last once the
/// versions are sorted.
pub proof fn lemma_greatest_is_last_sorted(versions: Seq<Seq<char>>, d: Seq<char>)
    requires
        versions.contains(d),
        forall|q: Seq<char>| #[trigger] versions.contains(q) ==> crate::lexical::lex_le(q, d),
    ensures
        versions.sort_by(lex_order()).len() > 0,
        versions.sort_by(lex_order()).last() == d,
{
    let sorted = versions.sort_by(lex_order());
    crate::lexical::lemma_lex_total_ordering();
    crate::lexical::lemma_sorted_lex(versions);
    versions.to_multiset_ensures();
    sorted.to_multiset_ensures();
    assert(versions.to_multiset().count(d) > 0);
    assert(sorted.len() > 0);
    let p = sorted.last();
    assert(sorted[sorted.len() - 1] == p);
    assert(sorted.contains(p));
    assert(sorted.to_multiset().count(p) > 0);
    assert(versions.contains(p));
    assert(crate::lexical::lex_le(p, d));
    assert(sorted.contains(d));
    let j = choose|j: int| 0 <= j < sorted.len() && sorted[j] == d;
    if j < sorted.len() - 1 {
        assert(crate::lexical::lex_le(sorted[j], sorted[sorted.len() - 1]));
    } else {
        crate::lexical::lemma_lex_reflexive(d);
    }
    crate::lexical::lemma_lex_antisymmetric(p, d);
}

/// The rules of version names look at the classes of the characters and at
/// the part before the first hyphen (which ends at `h`) alone: a name is
/// accepted exactly when every character is alphanumeric or a hyphen, and
/// that part is a `v` followed by at least one numeric character, whatever
/// follows the first hyphen; and it is refused as holding a character that
/// is neither exactly when it holds one.
pub proof fn lemma_version_name_rules_exact(
    name: Seq<char>,
    alphanumeric: Seq<bool>,
    numeric: Seq<bool>,
    h: int,
)
    requires
        0 <= h <= name.len(),
        forall|k: int| 0 <= k < h ==> name[k] != '-',
        h == name.len() || name[h] == '-',
    ensures
        version_name_rules(name, alphanumeric, numeric) is Ok <==> (
        (forall|i: int| 0 <= i < name.len() ==> alphanumeric[i] || name[i] == '-')
            && h >= 2 && name[0] == 'v' && (forall|i: int| 1 <= i < h ==> numeric[i])),
        version_name_rules(name, alphanumeric, numeric) == Err::<(), VersionNameError>(
            VersionNameError::NotAlphanumericOrHyphen,
        ) <==> (exists|i: int| 0 <= i < name.len() && !alphanumeric[i] && name[i] != '-'),
{
    lemma_chunk_len(name, h);
}

/// Reading digits that spell a number that fits goes on after them with
/// that number read so far.
proof fn lemma_parse_digits_append(d: Seq<char>, t: Seq<char>, acc: nat, v: usize)
    requires
        acc <= usize::MAX,
        all_decimal_digits(d),
        parse_digits(d, acc) == Ok::<usize, IntErrorKind>(v),
    ensures
        parse_digits(d + t, acc) == parse_digits(t, v as nat),
    decreases d.len(),
{
    if d.len() == 0 {
        assert(d + t =~= t);
    } else {
        assert(is_decimal_digit(d[0]));
        let next = (acc * 10 + (d[0] as nat - '0' as nat)) as nat;
        assert((d + t)[0] == d[0]);
        assert((d + t).drop_first() =~= d.drop_first() + t);
        let rest = d.drop_first();
        assert forall|i: int| 0 <= i < rest.len() implies is_decimal_digit(#[trigger] rest[i]) by {
            assert(rest[i] == d[i + 1]);
        }
        lemma_parse_digits_append(rest, t, next, v);
    }
}

/// The text before the first hyphen of a text that starts with no hyphen
/// in `a` is `a` and what comes before the first hyphen of the rest.
proof fn lemma_first_chunk_append(a: Seq<char>, b: Seq<char>)
    requires
        forall|k: int| 0 <= k < a.len() ==> a[k] != '-',
    ensures
        first_chunk(a + b) == a + first_chunk(b),
    decreases a.len(),
{
    if a.len() == 0 {
        assert(a + b =~= b);
        assert(a + first_chunk(b) =~= first_chunk(b));
    } else {
        let rest = a.drop_first();
        assert((a + b).drop_first() =~= rest + b);
        assert((a + b)[0] == a[0]);
        assert(a[0] != '-');
        lemma_first_chunk_append(rest, b);
        assert(chunk_len(a + b) == 1 + chunk_len(rest + b));
        lemma_chunk_len_le(rest + b);
        assert((a + b).take(chunk_len(a + b) as int) =~= seq![a[0]] + (rest + b).take(
            chunk_len(rest + b) as int,
        ));
        assert(a + first_chunk(b) =~= seq![a[0]] + (rest + first_chunk(b)));
    }
}

/// Why a name holds no version number: one that does not start with `v`
/// lacks the prefix; one whose `v` is followed by nothing before the first
/// hyphen holds an empty number; one whose `v` is followed by digits (that
/// spell a number that fits) and then a character that is neither a digit
/// nor a hyphen nor a sign holds an invalid digit.
pub proof fn lemma_version_number_errors(name: Seq<char>, d: Seq<char>, c: char, rest: Seq<char>)
    ensures
        name.len() == 0 || name[0] != 'v' ==> version_number_of(name) == Err::<
            usize,
            VersionNumberError,
        >(VersionNumberError::MissingPrefix),
        name.len() > 0 && name[0] == 'v' && (name.len() == 1 || name[1] == '-')
            ==> version_number_of(name) == Err::<usize, VersionNumberError>(
            VersionNumberError::InvalidNumber(IntErrorKind::Empty),
        ),
        all_decimal_digits(d) && digits_value(d) <= usize::MAX && !is_decimal_digit(c) && c != '-'
            && c != '+' ==> version_number_of(seq!['v'] + d + seq![c] + rest) == Err::<
            usize,
            VersionNumberError,
        >(VersionNumberError::InvalidNumber(IntErrorKind::InvalidDigit)),
{
    if name.len() > 0 && name[0] == 'v' && (name.len() == 1 || name[1] == '-') {
        let tail = name.drop_first();
        if tail.len() > 0 {
            assert(tail[0] == '-');
        }
        assert(chunk_len(tail) == 0);
        assert(first_chunk(tail).len() == 0);
    }
    if all_decimal_digits(d) && digits_value(d) <= usize::MAX && !is_decimal_digit(c) && c != '-'
        && c != '+' {
        let full = seq!['v'] + d + seq![c] + rest;
        let tail = full.drop_first();
        assert(tail =~= (d + seq![c]) + rest);
        let dc = d + seq![c];
        assert forall|k: int| 0 <= k < dc.len() implies dc[k] != '-' by {
            if k < d.len() {
                assert(dc[k] == d[k]);
                assert(is_decimal_digit(d[k]));
            } else {
                assert(dc[k] == c);
            }
        }
        lemma_first_chunk_append(dc, rest);
        let chunk = first_chunk(tail);
        assert(chunk =~= d + (seq![c] + first_chunk(rest)));
        lemma_parse_digits_value(d);
        lemma_parse_digits_append(d, seq![c] + first_chunk(rest), 0, digits_value(d) as usize);
        assert((seq![c] + first_chunk(rest))[0] == c);
        if d.len() > 0 {
            assert(chunk[0] == d[0]);
            assert(is_decimal_digit(d[0]));
        } else {
            assert(chunk[0] == c);
        }
        assert(chunk.len() >= 1);
        if chunk.len() == 1 {
            assert(d.len() == 0);
        }
    }
}

/// A reading that overflows within some digits overflows whatever follows.
proof fn lemma_parse_digits_overflow_append(d: Seq<char>, t: Seq<char>, acc: nat)
    requires
        all_decimal_digits(d),
        parse_digits(d, acc) == Err::<usize, IntErrorKind>(IntErrorKind::PosOverflow),
    ensures
        parse_digits(d + t, acc) == Err::<usize, IntErrorKind>(IntErrorKind::PosOverflow),
    decreases d.len(),
{
    assert(d.len() > 0);
    assert(is_decimal_digit(d[0]));
    assert((d + t)[0] == d[0]);
    let next = (acc * 10 + (d[0] as nat - '0' as nat)) as nat;
    if acc * 10 + (d[0] as nat - '0' as nat) <= usize::MAX {
        assert((d + t).drop_first() =~= d.drop_first() + t);
        let rest = d.drop_first();
        assert forall|i: int| 0 <= i < rest.len() implies is_decimal_digit(#[trigger] rest[i]) by {
            assert(rest[i] == d[i + 1]);
        }
        lemma_parse_digits_overflow_append(rest, t, next);
    }
}

/// Decimal digits that spell a number larger than `usize::MAX` overflow.
proof fn lemma_parse_digits_overflow(d: Seq<char>)
    requires
        all_decimal_digits(d),
        digits_value(d) > usize::MAX,
    ensures
        parse_digits(d, 0) == Err::<usize, IntErrorKind>(IntErrorKind::PosOverflow),
    decreases d.len(),
{
    let front = d.drop_last();
    let c = d.last();
    assert(is_decimal_digit(d[d.len() - 1]));
    assert forall|i: int| 0 <= i < front.len() implies is_decimal_digit(#[trigger] front[i]) by {
        assert(front[i] == d[i]);
    }
    assert(front.push(c) =~= front + seq![c]);
    assert(d =~= front + seq![c]);
    if digits_value(front) > usize::MAX {
        lemma_parse_digits_overflow(front);
        lemma_parse_digits_overflow_append(front, seq![c], 0);
    } else {
        lemma_parse_digits_value(front);
        lemma_parse_digits_append(front, seq![c], 0, digits_value(front) as usize);
        assert(seq![c][0] == c);
    }
}

/// A version name whose `v` is followed by digits that spell a number
/// larger than `usize::MAX` (and then, optionally, a hyphen and more)
/// holds no number: it overflows.
pub proof fn lemma_version_number_overflow(d: Seq<char>, rest: Seq<char>)
    requires
        all_decimal_digits(d),
        digits_value(d) > usize::MAX,
    ensures
        version_number_of(seq!['v'] + d) == Err::<usize, VersionNumberError>(
            VersionNumberError::InvalidNumber(IntErrorKind::PosOverflow),
        ),
        version_number_of(seq!['v'] + d + seq!['-'] + rest) == Err::<usize, VersionNumberError>(
            VersionNumberError::InvalidNumber(IntErrorKind::PosOverflow),
        ),
{
    lemma_parse_digits_overflow(d);
    assert(d.len() > 0);
    assert(is_decimal_digit(d[0]));
    assert forall|k: int| 0 <= k < d.len() implies d[k] != '-' by {
        assert(is_decimal_digit(d[k]));
    }
    let plain = seq!['v'] + d;
    assert(plain.drop_first() =~= d);
    lemma_chunk_len(d, d.len() as int);
    assert(d.take(d.len() as int) =~= d);
    let tail = (seq!['v'] + d + seq!['-'] + rest).drop_first();
    assert(tail =~= d + (seq!['-'] + rest));
    lemma_first_chunk_append(d, seq!['-'] + rest);
    assert(chunk_len(seq!['-'] + rest) == 0);
    assert(d + first_chunk(seq!['-'] + rest) =~= d);
    if d.len() == 1 {
        assert(d[0] != '+' && d[0] != '-');
    }
}

proof fn lemma_chunk_len_le(s: Seq<char>)
    ensures
        chunk_len(s) <= s.len(),
    decreases s.len(),
{
    if s.len() > 0 {
        lemma_chunk_len_le(s.drop_first());
    }
}

proof fn lemma_chunk_len(s: Seq<char>, n: int)
    requires
        0 <= n <= s.len(),
        forall|k: int| 0 <= k < n ==> s[k] != '-',
        n == s.len() || s[n] == '-',
    ensures
        chunk_len(s) == n,
    decreases n,
{
    if n > 0 {
        lemma_chunk_len(s.drop_first(), n - 1);
    }
}

/// The number of characters of `s` before its first hyphen.
fn find_chunk_len(s: &Vec<char>, from: usize) -> (n: usize)
    requires
        from <= s.len(),
    ensures
        from <= n <= s.len(),
        n - from == chunk_len(s@.skip(from as int)),
{
    let mut n = from;
    while n < s.len() && s[n] != '-'
        invariant
            from <= n <= s.len(),
            forall|k: int| from <= k < n ==> s@[k] != '-',
        decreases s.len() - n,
    {
        n = n + 1;
    }
    proof {
        lemma_chunk_len(s@.skip(from as int), n - from);
    }
    n
}

impl VersionNameError {
    /// The message that explains the broken rule.
    pub fn message(&self) -> (r: String)
        ensures
            r@ == version_name_error_message(*self),
    {
        match self {
            VersionNameError::NotAlphanumericOrHyphen => crate::text::text(
                "Version name must be alphanumeric or hyphen",
            ),
            VersionNameError::MissingLeadingV => crate::text::text(
                "Version name must start with a 'v'",
            ),
            VersionNameError::NoNumberAfterV => crate::text::text(
                "Version name must have a number after the 'v'",
            ),
        }
    }
}

impl VersionNumberError {
    /// The message that explains why the name holds no number.
    pub fn message(&self) -> (r: String)
        ensures
            r@ == version_number_error_message(*self),
    {
        match self {
            VersionNumberError::MissingPrefix => crate::text::text("Missing 'v' prefix"),
            VersionNumberError::InvalidNumber(_) => crate::text::text(
                "Failed to parse version number",
            ),
        }
    }
}

/// The message for each reason a name holds no number.
pub open spec fn version_number_error_message(e: VersionNumberError) -> Seq<char> {
    match e {
        VersionNumberError::MissingPrefix => "Missing 'v' prefix"@,
        VersionNumberError::InvalidNumber(_) => "Failed to parse version number"@,
    }
}

impl NextVersionError {
    /// The message that explains why there is no next version number.
    pub fn message(&self) -> (r: String)
        ensures
            r@ == next_version_error_message(*self),
    {
        match self {
            NextVersionError::NoVersionsFound => crate::text::text("No versions found"),
            NextVersionError::NoFileName => crate::text::text("No file name on the last version's path"),
            NextVersionError::VersionNumber(e) => e.message(),
            NextVersionError::NumberOverflow => crate::text::text(
                "The last version number has no successor",
            ),
        }
    }
}

/// The message for each reason there is no next version number.
pub open spec fn next_version_error_message(e: NextVersionError) -> Seq<char> {
    match e {
        NextVersionError::NoVersionsFound => "No versions found"@,
        NextVersionError::NoFileName => "No file name on the last version's path"@,
        NextVersionError::VersionNumber(v) => version_number_error_message(v),
        NextVersionError::NumberOverflow => "The last version number has no successor"@,
    }
}

impl RootDirError {
    /// The message that explains why no root directory was found.
    pub fn message(&self) -> (r: String)
        ensures
            r@ == root_dir_error_message(*self),
    {
        match self {
            RootDirError::NoParentDirectory => crate::text::text("No parent directory"),
            RootDirError::NotFound => crate::text::text("No Nanuak-Dictionary directory found"),
        }
    }
}

/// The message for each reason no root directory was found.
pub open spec fn root_dir_error_message(e: RootDirError) -> Seq<char> {
    match e {
        RootDirError::NoParentDirectory => "No parent directory"@,
        RootDirError::NotFound => "No Nanuak-Dictionary directory found"@,
    }
}

/// The message for each broken rule of version names.
pub open spec fn version_name_error_message(e: VersionNameError) -> Seq<char> {
    match e {
        VersionNameError::NotAlphanumericOrHyphen => "Version name must be alphanumeric or hyphen"@,
        VersionNameError::MissingLeadingV => "Version name must start with a 'v'"@,
        VersionNameError::NoNumberAfterV => "Version name must have a number after the 'v'"@,
    }
}

/// Checks `name` against the rules of version names, given for each of its
/// characters whether it is alphanumeric and whether it is numeric, and
/// names the first rule it breaks.
pub fn check_version_name(name: &[char], alphanumeric: &[bool], numeric: &[bool]) -> (r: Result<
    (),
    VersionNameError,
>)
    requires
        alphanumeric@.len() == name@.len(),
        numeric@.len() == name@.len(),
    ensures
        r == version_name_rules(name@, alphanumeric@, numeric@),
{
    let mut i: usize = 0;
    while i < name.len()
        invariant
            i <= name.len(),
            alphanumeric@.len() == name@.len(),
            forall|k: int| 0 <= k < i ==> #[trigger] alphanumeric@[k] || name@[k] == '-',
        decreases name.len() - i,
    {
        if !(alphanumeric[i] || name[i] == '-') {
            return Err(VersionNameError::NotAlphanumericOrHyphen);
        }
        i = i + 1;
    }
    let mut n: usize = 0;
    while n < name.len() && name[n] != '-'
        invariant
            n <= name.len(),
            forall|k: int| 0 <= k < n ==> name@[k] != '-',
        decreases name.len() - n,
    {
        n = n + 1;
    }
    proof {
        lemma_chunk_len(name@, n as int);
    }
    if n == 0 || name[0] != 'v' {
        return Err(VersionNameError::MissingLeadingV);
    }
    if n < 2 {
        return Err(VersionNameError::NoNumberAfterV);
    }
    let mut k: usize = 1;
    while k < n
        invariant
            1 <= k <= n,
            2 <= n,
            n == chunk_len(name@),
            n <= name.len(),
            name@[0] == 'v',
            numeric@.len() == name@.len(),
            alphanumeric@.len() == name@.len(),
            forall|j: int| 0 <= j < name@.len() ==> #[trigger] alphanumeric@[j] || name@[j] == '-',
            forall|j: int| 1 <= j < k ==> #[trigger] numeric@[j],
        decreases n - k,
    {
        if !numeric[k] {
            return Err(VersionNameError::NoNumberAfterV);
        }
        k = k + 1;
    }
    Ok(())
}

/// Checks `version_name` against the rules of version names, and names the
/// first rule it breaks.
pub fn is_valid_version_name(version_name: &str) -> (r: Result<(), VersionNameError>)
    ensures
        r == version_name_check(version_name@),
{
    let name = chars_of(version_name);
    let mut alphanumeric: Vec<bool> = Vec::new();
    let mut numeric: Vec<bool> = Vec::new();
    let mut i: usize = 0;
    while i < name.len()
        invariant
            i <= name.len(),
            alphanumeric@ == name@.take(i as int).map_values(|c: char| char_is_alphanumeric(c)),
            numeric@ == name@.take(i as int).map_values(|c: char| char_is_numeric(c)),
        decreases name.len() - i,
    {
        let ghost before_a = alphanumeric@;
        let ghost before_n = numeric@;
        alphanumeric.push(is_alphanumeric(name[i]));
        numeric.push(is_numeric(name[i]));
        i = i + 1;
        assert(alphanumeric@ =~= name@.take(i as int).map_values(|c: char| char_is_alphanumeric(c)));
        assert(numeric@ =~= name@.take(i as int).map_values(|c: char| char_is_numeric(c)));
    }
    assert(name@.take(i as int) =~= name@);
    check_version_name(name.as_slice(), alphanumeric.as_slice(), numeric.as_slice())
}

/// Reads `d[from..to]` as decimal digits, as `parse_digits` does from zero.
fn parse_digits_exec(d: &Vec<char>, from: usize, to: usize) -> (r: Result<usize, IntErrorKind>)
    requires
        from <= to <= d.len(),
    ensures
        r == parse_digits(d@.subrange(from as int, to as int), 0),
{
    let mut acc: usize = 0;
    let mut i = from;
    let ghost whole = d@.subrange(from as int, to as int);
    assert(whole.skip(0) =~= whole);
    while i < to
        invariant
            from <= i <= to,
            to <= d.len(),
            whole == d@.subrange(from as int, to as int),
            parse_digits(whole, 0) == parse_digits(whole.skip(i - from), acc as nat),
        decreases to - i,
    {
        let c = d[i];
        let ghost rest = whole.skip(i - from);
        assert(rest[0] == c);
        assert(rest.drop_first() =~= whole.skip(i + 1 - from));
        if !('0' <= c && c <= '9') {
            return Err(IntErrorKind::InvalidDigit);
        }
        let digit: usize = (c as u32 - '0' as u32) as usize;
        assert(digit == c as nat - '0' as nat);
        let next = match acc.checked_mul(10) {
            Some(m) => m.checked_add(digit),
            None => None,
        };
        match next {
            Some(v) => {
                acc = v;
            },
            None => {
                return Err(IntErrorKind::PosOverflow);
            },
        }
        i = i + 1;
    }
    assert(whole.skip(i - from).len() == 0);
    Ok(acc)
}

/// `usize::from_str` on `d[from..to]`.
fn parse_usize_exec(d: &Vec<char>, from: usize, to: usize) -> (r: Result<usize, IntErrorKind>)
    requires
        from <= to <= d.len(),
    ensures
        r == parse_usize(d@.subrange(from as int, to as int)),
{
    let ghost s = d@.subrange(from as int, to as int);
    if from == to {
        return Err(IntErrorKind::Empty);
    }
    if to - from == 1 && (d[from] == '+' || d[from] == '-') {
        return Err(IntErrorKind::InvalidDigit);
    }
    if d[from] == '+' {
        assert(s.drop_first() =~= d@.subrange(from + 1, to as int));
        parse_digits_exec(d, from + 1, to)
    } else {
        parse_digits_exec(d, from, to)
    }
}

/// The version number in `version_name`: what follows its leading `v`, up
/// to the first hyphen, read as a `usize`.
pub fn extract_version_number(version_name: &str) -> (r: Result<usize, VersionNumberError>)
    ensures
        r == version_number_of(version_name@),
{
    let s = chars_of(version_name);
    if s.len() == 0 || s[0] != 'v' {
        return Err(VersionNumberError::MissingPrefix);
    }
    let n = find_chunk_len(&s, 1);
    assert(s@.skip(1) =~= s@.drop_first());
    assert(first_chunk(s@.drop_first()) =~= s@.subrange(1, n as int));
    match parse_usize_exec(&s, 1, n) {
        Ok(v) => Ok(v),
        Err(kind) => Err(VersionNumberError::InvalidNumber(kind)),
    }
}

/// The number after the number in the version name `last_version_name`.
pub fn next_version_number_after(last_version_name: &str) -> (r: Result<usize, NextVersionError>)
    ensures
        r == number_after(last_version_name@),
{
    match extract_version_number(last_version_name) {
        Err(e) => Err(NextVersionError::VersionNumber(e)),
        Ok(n) => match n.checked_add(1) {
            Some(next) => Ok(next),
            None => Err(NextVersionError::NumberOverflow),
        },
    }
}

/// The number of the version after the last of `versions`: the number in
/// the last version's directory name, plus one.
pub fn extract_next_version_number(versions: &[String]) -> (r: Result<usize, NextVersionError>)
    ensures
        r == next_version_number_of(string_seqs(versions@)),
{
    if versions.len() == 0 {
        return Err(NextVersionError::NoVersionsFound);
    }
    let last = &versions[versions.len() - 1];
    assert(string_seqs(versions@).last() == last@);
    match file_name(last.as_str()) {
        None => Err(NextVersionError::NoFileName),
        Some(name) => next_version_number_after(name.as_str()),
    }
}

/// The versions of the workspace at `root_dir`, given its listing: the
/// paths of the children that are directories with version names, in
/// lexicographic order.
pub fn get_versions(root_dir: &str, entries: &[DirEntry]) -> (versions: Vec<String>)
    ensures
        string_seqs(versions@) == version_dirs(root_dir@, entries@).sort_by(lex_order()),
{
    let mut found: Vec<Vec<char>> = Vec::new();
    let mut i: usize = 0;
    while i < entries.len()
        invariant
            i <= entries.len(),
            char_seqs(found@) == version_dirs(root_dir@, entries@.take(i as int)),
        decreases entries.len() - i,
    {
        let e = &entries[i];
        assert(entries@.take(i + 1).drop_last() =~= entries@.take(i as int));
        assert(entries@.take(i + 1).last() == *e);
        if e.is_dir && is_valid_version_name(e.name.as_str()).is_ok() {
            let path = join_path(root_dir, e.name.as_str());
            found.push(chars_of(path.as_str()));
            assert(char_seqs(found@) =~= version_dirs(root_dir@, entries@.take(i as int)).push(
                path@,
            ));
        }
        i = i + 1;
    }
    assert(entries@.take(i as int) =~= entries@);
    let sorted = sort_lex(found);
    let mut versions: Vec<String> = Vec::new();
    let mut k: usize = 0;
    while k < sorted.len()
        invariant
            k <= sorted.len(),
            string_seqs(versions@) == char_seqs(sorted@).take(k as int),
        decreases sorted.len() - k,
    {
        let item = crate::text::string_from_chars(&sorted[k]);
        let ghost before = versions@;
        assert(char_seqs(sorted@)[k as int] == item@);
        versions.push(item);
        assert(versions@ == before.push(item));
        assert(string_seqs(versions@) =~= string_seqs(before).push(item@));
        assert(char_seqs(sorted@).take(k + 1) =~= char_seqs(sorted@).take(k as int).push(item@));
        k = k + 1;
    }
    assert(char_seqs(sorted@).take(k as int) =~= char_seqs(sorted@));
    versions
}

/// Whether `name` is `Nanuak-Dictionary`, the name of the dictionary's root
/// directory.
pub fn is_nanuak_dictionary_name(name: &str) -> (r: bool)
    ensures
        r == (name@ == dictionary_root_name()),
{
    let got = chars_of(name);
    let want = chars_of("Nanuak-Dictionary");
    proof {
        reveal_strlit("Nanuak-Dictionary");
        assert("Nanuak-Dictionary"@ =~= dictionary_root_name());
    }
    crate::text::same_chars(&got, &want)
}

/// Whether `path`, which is a directory when `is_dir` holds, is the
/// dictionary's root directory `Nanuak-Dictionary`.
pub fn is_valid_nanuak_dictionary_root_dir(path: &str, is_dir: bool) -> (r: bool)
    ensures
        r == is_dictionary_root(path@, is_dir),
{
    if !is_dir {
        return false;
    }
    match file_name(path) {
        None => false,
        Some(name) => is_nanuak_dictionary_name(name.as_str()),
    }
}

/// The dictionary root, given the current directory, whether it is the
/// root, its parent (if it has one) and whether that is the root: the
/// current directory if it is the root, else its parent if that is.
pub fn choose_dictionary_root(
    current_dir: &str,
    current_is_root: bool,
    parent: Option<String>,
    parent_is_root: bool,
) -> (r: Result<String, RootDirError>)
    ensures
        match r {
            Ok(p) => root_choice_rules(
                current_dir@,
                current_is_root,
                crate::effects::opt_string_view(parent),
                parent_is_root,
            ) == Ok::<Seq<char>, RootDirError>(p@),
            Err(e) => root_choice_rules(
                current_dir@,
                current_is_root,
                crate::effects::opt_string_view(parent),
                parent_is_root,
            ) == Err::<Seq<char>, RootDirError>(e),
        },
{
    if current_is_root {
        return Ok(crate::text::text(current_dir));
    }
    match parent {
        None => Err(RootDirError::NoParentDirectory),
        Some(p) => if parent_is_root {
            Ok(p)
        } else {
            Err(RootDirError::NotFound)
        },
    }
}

/// The dictionary's root directory, given the current directory (which is a
/// directory when `current_is_dir` holds) and whether its parent is a
/// directory: the current directory if it is named `Nanuak-Dictionary`,
/// else its parent if that is.
pub fn get_nanuak_dictionary_root_dir_using_cwd_if_matches_or_parent_dir(
    current_dir: &str,
    current_is_dir: bool,
    parent_is_dir: bool,
) -> (r: Result<String, RootDirError>)
    ensures
        match r {
            Ok(p) => dictionary_root_choice(current_dir@, current_is_dir, parent_is_dir) == Ok::<
                Seq<char>,
                RootDirError,
            >(p@),
            Err(e) => dictionary_root_choice(current_dir@, current_is_dir, parent_is_dir) == Err::<
                Seq<char>,
                RootDirError,
            >(e),
        },
{
    let current_is_root = is_valid_nanuak_dictionary_root_dir(current_dir, current_is_dir);
    let parent_dir = parent(current_dir);
    let parent_is_root = match &parent_dir {
        Some(p) => is_valid_nanuak_dictionary_root_dir(p.as_str(), parent_is_dir),
        None => false,
    };
    choose_dictionary_root(current_dir, current_is_root, parent_dir, parent_is_root)
}

} // verus!
