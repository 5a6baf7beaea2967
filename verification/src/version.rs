//! The grammar of version strings: `Major.Minor.Patch`, optionally followed by
//! `-beta<N>` or `-rc<N>`.
//!
//! The text is split at its first hyphen. What stands before it is the
//! canonical version: three numbers separated by dots. What stands after it
//! is the pre-release qualifier: a keyword and a sequence number. Every number
//! is written in decimal digits and fits in eight bits.

use crate::error::ConfigError;
use vstd::prelude::*;
use vstd::slice::slice_subrange;

verus! {

/// Whether `c` is one of the ten decimal digits.
pub open spec fn is_digit(c: char) -> bool {
    '0' <= c && c <= '9'
}

/// The number that the decimal digit `c` stands for.
pub open spec fn digit_value(c: char) -> nat {
    (c as u32 - '0' as u32) as nat
}

/// Whether `s` is a numeral: one decimal digit or more, and nothing else.
pub open spec fn is_numeral(s: Seq<char>) -> bool {
    s.len() > 0 && forall|i: int| 0 <= i < s.len() ==> is_digit(#[trigger] s[i])
}

/// The number that the numeral `s` denotes in base ten.
pub open spec fn numeral_value(s: Seq<char>) -> nat
    decreases s.len(),
{
    if s.len() == 0 {
        0
    } else {
        10 * numeral_value(s.drop_last()) + digit_value(s.last())
    }
}

/// The number written in `s`, where `s` is a numeral of a number up to 255.
pub open spec fn field(s: Seq<char>) -> Option<u8> {
    if is_numeral(s) && numeral_value(s) <= u8::MAX {
        Some(numeral_value(s) as u8)
    } else {
        None
    }
}

/// Where `c` first occurs in `s`; the length of `s` where it does not occur.
pub open spec fn position(s: Seq<char>, c: char) -> int
    decreases s.len(),
{
    if s.len() == 0 || s[0] == c {
        0
    } else {
        1 + position(s.drop_first(), c)
    }
}

/// The three numbers of `s`, where `s` is three fields separated by two dots.
pub open spec fn triple(s: Seq<char>) -> Option<(u8, u8, u8)> {
    let first = position(s, '.');
    let rest = s.skip(first + 1);
    let second = position(rest, '.');
    if first < s.len() && second < rest.len() {
        match (field(s.take(first)), field(rest.take(second)), field(rest.skip(second + 1))) {
            (Some(major), Some(minor), Some(patch)) => Some((major, minor, patch)),
            _ => None,
        }
    } else {
        None
    }
}

/// The keyword of a beta qualifier.
pub open spec fn beta_keyword() -> Seq<char> {
    seq!['b', 'e', 't', 'a']
}

/// The keyword of a release-candidate qualifier.
pub open spec fn rc_keyword() -> Seq<char> {
    seq!['r', 'c']
}

/// The sequence number that follows `keyword` in `s`, where `s` is that
/// keyword followed by a positive number.
pub open spec fn numbered(s: Seq<char>, keyword: Seq<char>) -> Option<u8> {
    if keyword.is_prefix_of(s) {
        match field(s.skip(keyword.len() as int)) {
            Some(n) => if n > 0 {
                Some(n)
            } else {
                None
            },
            None => None,
        }
    } else {
        None
    }
}

/// The beta and release-candidate numbers of the qualifier `s`: the one that
/// the keyword names is positive, the other is zero.
pub open spec fn qualifier(s: Seq<char>) -> Option<(u8, u8)> {
    match numbered(s, beta_keyword()) {
        Some(n) => Some((n, 0u8)),
        None => match numbered(s, rc_keyword()) {
            Some(n) => Some((0u8, n)),
            None => None,
        },
    }
}

/// The part of a version string that names the release: all that stands
/// before the first hyphen.
pub open spec fn canonical(s: Seq<char>) -> Seq<char> {
    s.take(position(s, '-'))
}

/// What the version string `s` denotes: major, minor and patch number, then
/// beta and release-candidate number. `None` where `s` is not a version string.
pub open spec fn version_of(s: Seq<char>) -> Option<(u8, u8, u8, u8, u8)> {
    let hyphen = position(s, '-');
    match triple(s.take(hyphen)) {
        Some((major, minor, patch)) => if hyphen == s.len() {
            Some((major, minor, patch, 0u8, 0u8))
        } else {
            match qualifier(s.skip(hyphen + 1)) {
                Some((beta, rc)) => Some((major, minor, patch, beta, rc)),
                None => None,
            }
        },
        None => None,
    }
}

/// `position(s, c)` is within `s` or at its end, no earlier element is `c`,
/// and the element there, if any, is `c`.
pub proof fn lemma_position(s: Seq<char>, c: char)
    ensures
        0 <= position(s, c) <= s.len(),
        forall|i: int| 0 <= i < position(s, c) ==> s[i] != c,
        position(s, c) < s.len() ==> s[position(s, c)] == c,
    decreases s.len(),
{
    if s.len() == 0 || s[0] == c {
    } else {
        let t = s.drop_first();
        lemma_position(t, c);
        assert forall|i: int| 0 <= i < position(s, c) implies s[i] != c by {
            if i > 0 {
                assert(s[i] == t[i - 1]);
            }
        }
    }
}

/// Any index that has the three properties of `lemma_position` is the position.
pub proof fn lemma_position_unique(s: Seq<char>, c: char, n: int)
    requires
        0 <= n <= s.len(),
        forall|i: int| 0 <= i < n ==> s[i] != c,
        n < s.len() ==> s[n] == c,
    ensures
        position(s, c) == n,
{
    lemma_position(s, c);
}

/// No element of a numeral is a dot or a hyphen.
pub proof fn lemma_numeral_has_no_separator(s: Seq<char>)
    requires
        is_numeral(s),
    ensures
        forall|i: int| 0 <= i < s.len() ==> s[i] != '.' && s[i] != '-',
        position(s, '.') == s.len(),
        position(s, '-') == s.len(),
{
    assert forall|i: int| 0 <= i < s.len() implies s[i] != '.' && s[i] != '-' by {
        assert(is_digit(s[i]));
    }
    lemma_position_unique(s, '.', s.len() as int);
    lemma_position_unique(s, '-', s.len() as int);
}

/// The text of three fields with a dot between each two.
pub open spec fn dotted(major: Seq<char>, minor: Seq<char>, patch: Seq<char>) -> Seq<char> {
    major + seq!['.'] + minor + seq!['.'] + patch
}

/// The text of a qualifier: a hyphen, the keyword, the number.
pub open spec fn suffixed(release: Seq<char>, keyword: Seq<char>, number: Seq<char>) -> Seq<char> {
    release + seq!['-'] + keyword + number
}

/// Three fields with a dot between each two are read as their three numbers.
pub proof fn lemma_triple_of_fields(major: Seq<char>, minor: Seq<char>, patch: Seq<char>)
    requires
        field(major).is_some(),
        field(minor).is_some(),
        field(patch).is_some(),
    ensures
        triple(dotted(major, minor, patch)) == Some(
            (field(major).unwrap(), field(minor).unwrap(), field(patch).unwrap()),
        ),
        forall|i: int| 0 <= i < dotted(major, minor, patch).len() ==> dotted(major, minor, patch)[i] != '-',
{
    let s = dotted(major, minor, patch);
    lemma_numeral_has_no_separator(major);
    lemma_numeral_has_no_separator(minor);
    lemma_numeral_has_no_separator(patch);
    lemma_position_unique(s, '.', major.len() as int);
    let rest = s.skip(major.len() as int + 1);
    lemma_position_unique(rest, '.', minor.len() as int);
    assert(s.take(major.len() as int) =~= major);
    assert(rest.take(minor.len() as int) =~= minor);
    assert(rest.skip(minor.len() as int + 1) =~= patch);
}

/// Every text of the form `Major.Minor.Patch` is a version string. It denotes
/// its three numbers and no pre-release, and it is its own canonical form.
pub proof fn lemma_release_is_version(major: Seq<char>, minor: Seq<char>, patch: Seq<char>)
    requires
        field(major).is_some(),
        field(minor).is_some(),
        field(patch).is_some(),
    ensures
        version_of(dotted(major, minor, patch)) == Some(
            (field(major).unwrap(), field(minor).unwrap(), field(patch).unwrap(), 0u8, 0u8),
        ),
        canonical(dotted(major, minor, patch)) == dotted(major, minor, patch),
{
    let s = dotted(major, minor, patch);
    lemma_triple_of_fields(major, minor, patch);
    lemma_position_unique(s, '-', s.len() as int);
    assert(s.take(s.len() as int) =~= s);
}

/// Every text of the form `Major.Minor.Patch-beta<N>` with a positive `N` is a
/// version string. It denotes its three numbers, `N` as the beta number and
/// no release candidate; its canonical form is what stands before the hyphen.
pub proof fn lemma_beta_is_version(
    major: Seq<char>,
    minor: Seq<char>,
    patch: Seq<char>,
    number: Seq<char>,
)
    requires
        field(major).is_some(),
        field(minor).is_some(),
        field(patch).is_some(),
        field(number).is_some(),
        field(number).unwrap() > 0,
    ensures
        version_of(suffixed(dotted(major, minor, patch), beta_keyword(), number)) == Some(
            (
                field(major).unwrap(),
                field(minor).unwrap(),
                field(patch).unwrap(),
                field(number).unwrap(),
                0u8,
            ),
        ),
        canonical(suffixed(dotted(major, minor, patch), beta_keyword(), number)) == dotted(
            major,
            minor,
            patch,
        ),
{
    let release = dotted(major, minor, patch);
    let s = suffixed(release, beta_keyword(), number);
    lemma_triple_of_fields(major, minor, patch);
    lemma_position_unique(s, '-', release.len() as int);
    assert(s.take(release.len() as int) =~= release);
    let q = s.skip(release.len() as int + 1);
    assert(q.skip(4) =~= number);
}

/// Every text of the form `Major.Minor.Patch-rc<N>` with a positive `N` is a
/// version string. It denotes its three numbers, no beta and `N` as the
/// release-candidate number; its canonical form is what stands before the
/// hyphen.
pub proof fn lemma_rc_is_version(
    major: Seq<char>,
    minor: Seq<char>,
    patch: Seq<char>,
    number: Seq<char>,
)
    requires
        field(major).is_some(),
        field(minor).is_some(),
        field(patch).is_some(),
        field(number).is_some(),
        field(number).unwrap() > 0,
    ensures
        version_of(suffixed(dotted(major, minor, patch), rc_keyword(), number)) == Some(
            (
                field(major).unwrap(),
                field(minor).unwrap(),
                field(patch).unwrap(),
                0u8,
                field(number).unwrap(),
            ),
        ),
        canonical(suffixed(dotted(major, minor, patch), rc_keyword(), number)) == dotted(
            major,
            minor,
            patch,
        ),
{
    let release = dotted(major, minor, patch);
    let s = suffixed(release, rc_keyword(), number);
    lemma_triple_of_fields(major, minor, patch);
    lemma_position_unique(s, '-', release.len() as int);
    assert(s.take(release.len() as int) =~= release);
    let q = s.skip(release.len() as int + 1);
    assert(q[0] == 'r');
    assert(q.skip(2) =~= number);
}

/// Whether `s` is written as the release `major.minor.patch`, each of the
/// three a field.
pub open spec fn is_release(s: Seq<char>, major: Seq<char>, minor: Seq<char>, patch: Seq<char>) -> bool {
    &&& field(major).is_some()
    &&& field(minor).is_some()
    &&& field(patch).is_some()
    &&& s == dotted(major, minor, patch)
}

/// Whether `s` is written as the release `major.minor.patch`, a hyphen,
/// `keyword` and `number`, each of the three and `number` a field, and
/// `number` positive.
pub open spec fn is_prerelease(
    s: Seq<char>,
    major: Seq<char>,
    minor: Seq<char>,
    patch: Seq<char>,
    keyword: Seq<char>,
    number: Seq<char>,
) -> bool {
    &&& field(major).is_some()
    &&& field(minor).is_some()
    &&& field(patch).is_some()
    &&& field(number).is_some()
    &&& field(number).unwrap() > 0
    &&& s == suffixed(dotted(major, minor, patch), keyword, number)
}

/// Whether `s` is well formed: a release, or a release with a beta or a
/// release-candidate qualifier.
pub open spec fn well_formed(s: Seq<char>) -> bool {
    ||| exists|major: Seq<char>, minor: Seq<char>, patch: Seq<char>|
        is_release(s, major, minor, patch)
    ||| exists|major: Seq<char>, minor: Seq<char>, patch: Seq<char>, number: Seq<char>|
        is_prerelease(s, major, minor, patch, beta_keyword(), number)
    ||| exists|major: Seq<char>, minor: Seq<char>, patch: Seq<char>, number: Seq<char>|
        is_prerelease(s, major, minor, patch, rc_keyword(), number)
}

/// The version strings are the well-formed texts, all of them and no others.
pub proof fn lemma_version_iff_well_formed(s: Seq<char>)
    ensures
        version_of(s).is_some() <==> well_formed(s),
{
    if version_of(s).is_some() {
        lemma_position(s, '-');
        let hyphen = position(s, '-');
        let release = s.take(hyphen);
        lemma_position(release, '.');
        let first = position(release, '.');
        let rest = release.skip(first + 1);
        lemma_position(rest, '.');
        let second = position(rest, '.');
        let major = release.take(first);
        let minor = rest.take(second);
        let patch = rest.skip(second + 1);
        assert(release =~= dotted(major, minor, patch));
        if hyphen == s.len() {
            assert(s =~= release);
            assert(is_release(s, major, minor, patch));
        } else {
            let q = s.skip(hyphen + 1);
            if numbered(q, beta_keyword()).is_some() {
                let number = q.skip(4);
                assert(s =~= suffixed(release, beta_keyword(), number));
                assert(is_prerelease(s, major, minor, patch, beta_keyword(), number));
            } else {
                let number = q.skip(2);
                assert(s =~= suffixed(release, rc_keyword(), number));
                assert(is_prerelease(s, major, minor, patch, rc_keyword(), number));
            }
        }
    }
    if well_formed(s) {
        if exists|major: Seq<char>, minor: Seq<char>, patch: Seq<char>|
            is_release(s, major, minor, patch) {
            let (major, minor, patch) = choose|major: Seq<char>, minor: Seq<char>, patch: Seq<char>|
                is_release(s, major, minor, patch);
            lemma_release_is_version(major, minor, patch);
        } else if exists|major: Seq<char>, minor: Seq<char>, patch: Seq<char>, number: Seq<char>|
            is_prerelease(s, major, minor, patch, beta_keyword(), number) {
            let (major, minor, patch, number) = choose|
                major: Seq<char>,
                minor: Seq<char>,
                patch: Seq<char>,
                number: Seq<char>,
            | is_prerelease(s, major, minor, patch, beta_keyword(), number);
            lemma_beta_is_version(major, minor, patch, number);
        } else {
            let (major, minor, patch, number) = choose|
                major: Seq<char>,
                minor: Seq<char>,
                patch: Seq<char>,
                number: Seq<char>,
            | is_prerelease(s, major, minor, patch, rc_keyword(), number);
            lemma_rc_is_version(major, minor, patch, number);
        }
    }
}

/// Of a version string with a qualifier, exactly one of the beta and the
/// release-candidate number is positive; of one without, both are zero.
pub proof fn lemma_qualifier_numbers(s: Seq<char>)
    requires
        version_of(s).is_some(),
    ensures
        ({
            let (major, minor, patch, beta, rc) = version_of(s).unwrap();
            if s.contains('-') {
                (beta > 0 && rc == 0) || (beta == 0 && rc > 0)
            } else {
                beta == 0 && rc == 0
            }
        }),
{
    lemma_position(s, '-');
}

/// The canonical form of a version string is a version string: that of the
/// same release, without a pre-release. It is its own canonical form.
pub proof fn lemma_canonical_is_release(s: Seq<char>)
    requires
        version_of(s).is_some(),
    ensures
        ({
            let (major, minor, patch, beta, rc) = version_of(s).unwrap();
            version_of(canonical(s)) == Some((major, minor, patch, 0u8, 0u8))
        }),
        canonical(canonical(s)) == canonical(s),
{
    lemma_position(s, '-');
    let c = canonical(s);
    lemma_position_unique(c, '-', c.len() as int);
    assert(c.take(c.len() as int) =~= c);
}

/// The characters of `s`, one element each.
fn characters(s: &str) -> (v: Vec<char>)
    ensures
        v@ == s@,
{
    let mut v: Vec<char> = Vec::new();
    for c in it: s.chars()
        invariant
            it.seq() == s@,
            v@ == s@.take(it.index() as int),
    {
        v.push(c);
    }
    v
}

/// Finds where `c` first occurs in `s`.
fn find(s: &[char], c: char) -> (n: usize)
    ensures
        n == position(s@, c),
        n <= s@.len(),
{
    let mut n: usize = 0;
    while n < s.len() && s[n] != c
        invariant
            n <= s@.len(),
            forall|i: int| 0 <= i < n ==> s@[i] != c,
        decreases s@.len() - n,
    {
        n += 1;
    }
    proof {
        lemma_position_unique(s@, c, n as int);
    }
    n
}

/// A numeral is worth at least as much as each numeral that it begins with.
proof fn lemma_numeral_value_grows(s: Seq<char>, n: int)
    requires
        0 <= n <= s.len(),
    ensures
        numeral_value(s.take(n)) <= numeral_value(s),
    decreases s.len(),
{
    if n == s.len() {
        assert(s.take(n) == s);
    } else {
        assert(s.take(n) == s.drop_last().take(n));
        lemma_numeral_value_grows(s.drop_last(), n);
    }
}

/// Reads the number written in `s`.
fn parse_field(s: &[char]) -> (r: Option<u8>)
    ensures
        r == field(s@),
{
    if s.len() == 0 {
        return None;
    }
    let mut value: u8 = 0;
    let mut i: usize = 0;
    while i < s.len()
        invariant
            i <= s@.len(),
            forall|j: int| 0 <= j < i ==> is_digit(s@[j]),
            value == numeral_value(s@.take(i as int)),
        decreases s@.len() - i,
    {
        let c = s[i];
        if !('0' <= c && c <= '9') {
            return None;
        }
        let digit: u32 = c as u32 - '0' as u32;
        let next: u32 = 10 * (value as u32) + digit;
        proof {
            let longer = s@.take(i + 1);
            assert(longer.drop_last() == s@.take(i as int));
            lemma_numeral_value_grows(s@, i + 1);
        }
        if next > 255 {
            return None;
        }
        value = next as u8;
        i += 1;
    }
    proof {
        assert(s@.take(i as int) == s@);
    }
    Some(value)
}

/// Reads three fields separated by two dots.
fn parse_triple(s: &[char]) -> (r: Option<(u8, u8, u8)>)
    ensures
        r == triple(s@),
{
    let first = find(s, '.');
    if first >= s.len() {
        return None;
    }
    let rest = slice_subrange(s, first + 1, s.len());
    let second = find(rest, '.');
    if second >= rest.len() {
        return None;
    }
    let major = parse_field(slice_subrange(s, 0, first));
    let minor = parse_field(slice_subrange(rest, 0, second));
    let patch = parse_field(slice_subrange(rest, second + 1, rest.len()));
    match (major, minor, patch) {
        (Some(major), Some(minor), Some(patch)) => Some((major, minor, patch)),
        _ => None,
    }
}

/// Tells whether `s` begins with `keyword`.
fn has_prefix(s: &[char], keyword: &[char]) -> (r: bool)
    ensures
        r == keyword@.is_prefix_of(s@),
{
    if keyword.len() > s.len() {
        return false;
    }
    let mut i: usize = 0;
    while i < keyword.len()
        invariant
            i <= keyword@.len() <= s@.len(),
            forall|j: int| 0 <= j < i ==> keyword@[j] == s@[j],
        decreases keyword@.len() - i,
    {
        if keyword[i] != s[i] {
            return false;
        }
        i += 1;
    }
    true
}

/// Reads a positive number that follows `keyword`.
fn parse_numbered(s: &[char], keyword: &[char]) -> (r: Option<u8>)
    ensures
        r == numbered(s@, keyword@),
{
    if !has_prefix(s, keyword) {
        return None;
    }
    match parse_field(slice_subrange(s, keyword.len(), s.len())) {
        Some(n) => if n > 0 {
            Some(n)
        } else {
            None
        },
        None => None,
    }
}

/// Reads a pre-release qualifier.
fn parse_qualifier(s: &[char]) -> (r: Option<(u8, u8)>)
    ensures
        r == qualifier(s@),
{
    let beta: [char; 4] = ['b', 'e', 't', 'a'];
    let rc: [char; 2] = ['r', 'c'];
    match parse_numbered(s, beta.as_slice()) {
        Some(n) => Some((n, 0)),
        None => match parse_numbered(s, rc.as_slice()) {
            Some(n) => Some((0, n)),
            None => None,
        },
    }
}

/// Parses a version string into major, minor and patch number, beta number
/// and release-candidate number.
///
/// Succeeds on every version string and on nothing else. With a qualifier,
/// the number that its keyword names is positive and the other is zero;
/// without one, both are zero.
pub fn parse_version(version_string: &str) -> (r: Result<(u8, u8, u8, u8, u8), ConfigError>)
    ensures
        match r {
            Ok(version) => version_of(version_string@) == Some(version),
            Err(e) => version_of(version_string@).is_none() && e == ConfigError::InvalidVersionFormat,
        },
        r.is_ok() <==> well_formed(version_string@),
        r matches Ok((_, _, _, beta, rc)) ==> if version_string@.contains('-') {
            (beta > 0 && rc == 0) || (beta == 0 && rc > 0)
        } else {
            beta == 0 && rc == 0
        },
{
    proof {
        lemma_version_iff_well_formed(version_string@);
        if version_of(version_string@).is_some() {
            lemma_qualifier_numbers(version_string@);
        }
    }
    let text = characters(version_string);
    let s = text.as_slice();
    let hyphen = find(s, '-');
    let (major, minor, patch) = match parse_triple(slice_subrange(s, 0, hyphen)) {
        Some(numbers) => numbers,
        None => {
            return Err(ConfigError::InvalidVersionFormat);
        },
    };
    if hyphen == s.len() {
        return Ok((major, minor, patch, 0, 0));
    }
    match parse_qualifier(slice_subrange(s, hyphen + 1, s.len())) {
        Some((beta, rc)) => Ok((major, minor, patch, beta, rc)),
        None => Err(ConfigError::InvalidVersionFormat),
    }
}

/// The canonical form of a version string: all that stands before its first
/// hyphen.
pub fn canonical_version(version_string: &str) -> (r: String)
    ensures
        r@ == canonical(version_string@),
{
    let text = characters(version_string);
    let hyphen = find(text.as_slice(), '-');
    version_string.substring_char(0, hyphen).to_owned()
}

} // verus!
