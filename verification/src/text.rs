//! Verified text utilities for the output parsers: whitespace trimming,
//! splitting on a delimiter, substring search, decimal numbers, and
//! equality helpers over `&str` and `String`.

use vstd::prelude::*;

verus! {

// ---------------------------------------------------------------------------
// Whitespace and trimming
// ---------------------------------------------------------------------------

/// The whitespace characters the parsers care about.
pub open spec fn spec_is_space(c: char) -> bool {
    c == ' ' || c == '\t' || c == '\r' || c == '\n'
}

pub fn is_space(c: char) -> (r: bool)
    ensures
        r == spec_is_space(c),
{
    c == ' ' || c == '\t' || c == '\r' || c == '\n'
}

pub open spec fn spec_trim_start(s: Seq<char>) -> Seq<char>
    decreases s.len(),
{
    if s.len() > 0 && spec_is_space(s[0]) {
        spec_trim_start(s.skip(1))
    } else {
        s
    }
}

pub open spec fn spec_trim_end(s: Seq<char>) -> Seq<char>
    decreases s.len(),
{
    if s.len() > 0 && spec_is_space(s[s.len() - 1]) {
        spec_trim_end(s.take(s.len() - 1))
    } else {
        s
    }
}

/// The result of removing leading and trailing whitespace.
pub open spec fn spec_trim(s: Seq<char>) -> Seq<char> {
    spec_trim_end(spec_trim_start(s))
}

proof fn lemma_trim_start_at(s: Seq<char>, i: int)
    requires
        0 <= i <= s.len(),
        forall|k: int| 0 <= k < i ==> spec_is_space(s[k]),
        i < s.len() ==> !spec_is_space(s[i]),
    ensures
        spec_trim_start(s) == s.skip(i),
    decreases i,
{
    if i == 0 {
        assert(s.skip(0) =~= s);
    } else {
        lemma_trim_start_at(s.skip(1), i - 1);
        assert(s.skip(1).skip(i - 1) =~= s.skip(i));
    }
}

proof fn lemma_trim_end_at(s: Seq<char>, j: int)
    requires
        0 <= j <= s.len(),
        forall|k: int| j <= k < s.len() ==> spec_is_space(s[k]),
        j > 0 ==> !spec_is_space(s[j - 1]),
    ensures
        spec_trim_end(s) == s.take(j),
    decreases s.len() - j,
{
    if j == s.len() {
        assert(s.take(j) =~= s);
    } else {
        lemma_trim_end_at(s.take(s.len() - 1), j);
        assert(s.take(s.len() - 1).take(j) =~= s.take(j));
    }
}

/// Remove leading and trailing whitespace, as `spec_trim` describes.
pub fn trim_str(s: &str) -> (r: String)
    ensures
        r@ == spec_trim(s@),
{
    let n = s.unicode_len();
    let mut start: usize = 0;
    while start < n && is_space(s.get_char(start))
        invariant
            0 <= start <= n,
            n == s@.len(),
            forall|k: int| 0 <= k < start ==> spec_is_space(s@[k]),
        decreases n - start,
    {
        start = start + 1;
    }
    let mut end: usize = n;
    while end > start && is_space(s.get_char(end - 1))
        invariant
            start <= end <= n,
            n == s@.len(),
            forall|k: int| end <= k < n ==> spec_is_space(s@[k]),
        decreases end,
    {
        end = end - 1;
    }
    proof {
        lemma_trim_start_at(s@, start as int);
        let t = s@.skip(start as int);
        assert(forall|k: int|
            (end - start) <= k < t.len() ==> spec_is_space(#[trigger] t[k])) by {
            assert(forall|k: int| (end - start) <= k < t.len() ==> t[k] == s@[k + start]);
        }
        lemma_trim_end_at(t, end - start);
        assert(t.take(end - start) =~= s@.subrange(start as int, end as int));
    }
    let sub = s.substring_char(start, end);
    String::from_str(sub)
}

// ---------------------------------------------------------------------------
// Splitting on a separator character
// ---------------------------------------------------------------------------

/// The pieces of `s` between occurrences of `sep`, in order. Always at
/// least one piece; separators at the ends yield empty pieces.
pub open spec fn spec_split(s: Seq<char>, sep: char) -> Seq<Seq<char>>
    decreases s.len(),
{
    if s.len() == 0 {
        seq![Seq::<char>::empty()]
    } else if s[0] == sep {
        seq![Seq::<char>::empty()] + spec_split(s.skip(1), sep)
    } else {
        let rest = spec_split(s.skip(1), sep);
        seq![seq![s[0]] + rest[0]] + rest.skip(1)
    }
}

/// If `[start, i)` holds no separator and `i` is the next separator (or
/// the end), the split of the tail from `start` begins with that piece.
proof fn lemma_split_segment(s: Seq<char>, sep: char, start: int, i: int)
    requires
        0 <= start <= i <= s.len(),
        forall|k: int| start <= k < i ==> s[k] != sep,
        i < s.len() ==> s[i] == sep,
    ensures
        i < s.len() ==> spec_split(s.skip(start), sep) == seq![s.subrange(start, i)]
            + spec_split(s.skip(i + 1), sep),
        i == s.len() ==> spec_split(s.skip(start), sep) == seq![s.subrange(start, i)],
    decreases i - start,
{
    let t = s.skip(start);
    if start == i {
        if i == s.len() {
            assert(t =~= Seq::<char>::empty());
            assert(s.subrange(start, i) =~= Seq::<char>::empty());
            assert(spec_split(t, sep) == seq![s.subrange(start, i)]);
        } else {
            assert(t[0] == s[start]);
            assert(t.skip(1) =~= s.skip(i + 1));
            assert(s.subrange(start, i) =~= Seq::<char>::empty());
            assert(spec_split(t, sep) == seq![s.subrange(start, i)] + spec_split(
                s.skip(i + 1),
                sep,
            ));
        }
    } else {
        assert(t.len() > 0);
        assert(t[0] == s[start]);
        assert(t[0] != sep);
        assert(t.skip(1) =~= s.skip(start + 1));
        lemma_split_segment(s, sep, start + 1, i);
        let rest = spec_split(s.skip(start + 1), sep);
        if i < s.len() {
            assert(rest[0] == s.subrange(start + 1, i));
            assert(seq![t[0]] + rest[0] =~= s.subrange(start, i));
            assert(rest.skip(1) =~= spec_split(s.skip(i + 1), sep)) by {
                assert(rest == seq![s.subrange(start + 1, i)] + spec_split(s.skip(i + 1), sep));
                assert((seq![s.subrange(start + 1, i)] + spec_split(s.skip(i + 1), sep)).skip(1)
                    =~= spec_split(s.skip(i + 1), sep));
            }
            assert(spec_split(t, sep) =~= seq![s.subrange(start, i)] + spec_split(
                s.skip(i + 1),
                sep,
            ));
        } else {
            assert(rest == seq![s.subrange(start + 1, i)]);
            assert(rest[0] == s.subrange(start + 1, i));
            assert(seq![t[0]] + rest[0] =~= s.subrange(start, i));
            assert(rest.skip(1) =~= Seq::<Seq<char>>::empty());
            assert(spec_split(t, sep) =~= seq![s.subrange(start, i)]);
        }
    }
}

/// Split `s` at every occurrence of `sep`, as `spec_split` describes.
pub fn split_str(s: &str, sep: char) -> (parts: Vec<String>)
    ensures
        parts@.map_values(|p: String| p@) == spec_split(s@, sep),
        parts@.len() >= 1,
{
    let n = s.unicode_len();
    let mut parts: Vec<String> = Vec::new();
    let mut seg_start: usize = 0;
    let mut i: usize = 0;
    proof {
        assert(s@.skip(0) =~= s@);
        assert(parts@.map_values(|p: String| p@) =~= Seq::<Seq<char>>::empty());
    }
    while i < n
        invariant
            0 <= seg_start <= i <= n,
            n == s@.len(),
            forall|k: int| seg_start <= k < i ==> s@[k] != sep,
            spec_split(s@, sep) == parts@.map_values(|p: String| p@) + spec_split(
                s@.skip(seg_start as int),
                sep,
            ),
        decreases n - i,
    {
        if s.get_char(i) == sep {
            let ghost old_views = parts@.map_values(|p: String| p@);
            let piece = s.substring_char(seg_start, i);
            proof {
                lemma_split_segment(s@, sep, seg_start as int, i as int);
            }
            parts.push(String::from_str(piece));
            proof {
                assert(parts@.map_values(|p: String| p@) =~= old_views.push(piece@));
                assert(old_views.push(piece@) =~= old_views + seq![s@.subrange(
                    seg_start as int,
                    i as int,
                )]);
                assert((old_views + seq![s@.subrange(seg_start as int, i as int)]) + spec_split(
                    s@.skip(i + 1),
                    sep,
                ) =~= old_views + (seq![s@.subrange(seg_start as int, i as int)] + spec_split(
                    s@.skip(i + 1),
                    sep,
                )));
            }
            seg_start = i + 1;
        }
        i = i + 1;
    }
    let ghost old_views = parts@.map_values(|p: String| p@);
    let piece = s.substring_char(seg_start, n);
    proof {
        lemma_split_segment(s@, sep, seg_start as int, n as int);
    }
    parts.push(String::from_str(piece));
    proof {
        assert(parts@.map_values(|p: String| p@) =~= old_views.push(piece@));
        assert(old_views.push(piece@) =~= old_views + seq![s@.subrange(seg_start as int, n as int)]);
        assert(parts@.map_values(|p: String| p@) =~= spec_split(s@, sep));
    }
    parts
}

// ---------------------------------------------------------------------------
// Substring search
// ---------------------------------------------------------------------------

/// `needle` occurs in `hay` starting at position `i`.
pub open spec fn spec_match_at(hay: Seq<char>, needle: Seq<char>, i: int) -> bool {
    0 <= i && i + needle.len() <= hay.len() && hay.subrange(i, i + needle.len()) == needle
}

/// The first position at or after `i` where `needle` occurs in `hay`.
pub open spec fn spec_find_from(hay: Seq<char>, needle: Seq<char>, i: int) -> Option<int>
    decreases hay.len() + 1 - i,
{
    if i < 0 || i + needle.len() > hay.len() {
        None
    } else if spec_match_at(hay, needle, i) {
        Some(i)
    } else {
        spec_find_from(hay, needle, i + 1)
    }
}

/// The first position where `needle` occurs in `hay`, if any.
pub open spec fn spec_find(hay: Seq<char>, needle: Seq<char>) -> Option<int> {
    spec_find_from(hay, needle, 0)
}

/// `spec_find` reports the first match: a found index matches, nothing
/// earlier matches, and `None` means no position matches.
pub proof fn lemma_find_from_first(hay: Seq<char>, needle: Seq<char>, i: int)
    requires
        0 <= i,
    ensures
        match spec_find_from(hay, needle, i) {
            Some(j) => i <= j && spec_match_at(hay, needle, j) && forall|k: int|
                i <= k < j ==> !spec_match_at(hay, needle, k),
            None => forall|k: int| k >= i ==> !spec_match_at(hay, needle, k),
        },
    decreases hay.len() + 1 - i,
{
    if i + needle.len() > hay.len() {
        assert(forall|k: int| k >= i ==> !spec_match_at(hay, needle, k));
    } else if spec_match_at(hay, needle, i) {
    } else {
        lemma_find_from_first(hay, needle, i + 1);
    }
}

/// Find the first occurrence of `needle` in `hay`.
pub fn find_substring(hay: &str, needle: &str) -> (r: Option<usize>)
    ensures
        match r {
            Some(i) => spec_find(hay@, needle@) == Some(i as int),
            None => spec_find(hay@, needle@) is None,
        },
{
    let hlen = hay.unicode_len();
    let nlen = needle.unicode_len();
    if nlen == 0 {
        proof {
            assert(hay@.subrange(0, 0) =~= needle@);
        }
        return Some(0);
    }
    if nlen > hlen {
        return None;
    }
    let limit = hlen - nlen;
    let mut i: usize = 0;
    while i <= limit
        invariant
            0 <= i <= limit + 1,
            1 <= nlen <= hlen,
            limit == hlen - nlen,
            hlen == hay@.len(),
            nlen == needle@.len(),
            spec_find(hay@, needle@) == spec_find_from(hay@, needle@, i as int),
        decreases limit + 1 - i,
    {
        let mut j: usize = 0;
        let mut matched = true;
        while j < nlen
            invariant
                0 <= j <= nlen,
                i <= limit,
                limit == hlen - nlen,
                i + nlen <= hlen,
                hlen == hay@.len(),
                nlen == needle@.len(),
                matched ==> forall|k: int| 0 <= k < j ==> hay@[i + k] == needle@[k],
                !matched ==> !spec_match_at(hay@, needle@, i as int),
            decreases nlen - j,
        {
            if hay.get_char(i + j) != needle.get_char(j) {
                proof {
                    if spec_match_at(hay@, needle@, i as int) {
                        assert(hay@.subrange(i as int, i + nlen)[j as int] == hay@[i + j]);
                    }
                }
                matched = false;
                j = nlen;
            } else {
                j = j + 1;
            }
        }
        if matched {
            proof {
                assert(hay@.subrange(i as int, i + nlen) =~= needle@);
            }
            return Some(i);
        }
        i = i + 1;
    }
    proof {
        assert(spec_find_from(hay@, needle@, i as int) is None);
    }
    None
}

// ---------------------------------------------------------------------------
// Equality, prefixes, suffixes
// ---------------------------------------------------------------------------

/// Character-for-character equality of two string slices.
pub fn str_eq_str(a: &str, b: &str) -> (r: bool)
    ensures
        r == (a@ == b@),
{
    let alen = a.unicode_len();
    let blen = b.unicode_len();
    if alen != blen {
        return false;
    }
    let mut i: usize = 0;
    while i < alen
        invariant
            0 <= i <= alen,
            alen == a@.len(),
            alen == b@.len(),
            forall|k: int| 0 <= k < i ==> a@[k] == b@[k],
        decreases alen - i,
    {
        if a.get_char(i) != b.get_char(i) {
            return false;
        }
        i = i + 1;
    }
    proof {
        assert(a@ =~= b@);
    }
    true
}

/// The remainder of `s` after `prefix`, when `s` starts with `prefix`.
pub fn strip_prefix_str(s: &str, prefix: &str) -> (r: Option<String>)
    ensures
        match r {
            Some(rest) => s@.len() >= prefix@.len() && s@.take(prefix@.len() as int) == prefix@
                && rest@ == s@.skip(prefix@.len() as int),
            None => s@.len() < prefix@.len() || s@.take(prefix@.len() as int) != prefix@,
        },
{
    let slen = s.unicode_len();
    let plen = prefix.unicode_len();
    if slen < plen {
        return None;
    }
    let mut i: usize = 0;
    while i < plen
        invariant
            0 <= i <= plen <= slen,
            slen == s@.len(),
            plen == prefix@.len(),
            forall|k: int| 0 <= k < i ==> s@[k] == prefix@[k],
        decreases plen - i,
    {
        if s.get_char(i) != prefix.get_char(i) {
            proof {
                assert(s@.take(plen as int)[i as int] == s@[i as int]);
            }
            return None;
        }
        i = i + 1;
    }
    proof {
        assert(s@.take(plen as int) =~= prefix@);
    }
    let rest = s.substring_char(plen, slen);
    proof {
        assert(rest@ =~= s@.skip(plen as int));
    }
    Some(String::from_str(rest))
}

/// The front of `s` before `suffix`, when `s` ends with `suffix`.
pub fn strip_suffix_str(s: &str, suffix: &str) -> (r: Option<String>)
    ensures
        match r {
            Some(front) => s@.len() >= suffix@.len() && s@.skip(s@.len() - suffix@.len())
                == suffix@ && front@ == s@.take(s@.len() - suffix@.len()),
            None => s@.len() < suffix@.len() || s@.skip(s@.len() - suffix@.len()) != suffix@,
        },
{
    let slen = s.unicode_len();
    let xlen = suffix.unicode_len();
    if slen < xlen {
        return None;
    }
    let base = slen - xlen;
    let mut i: usize = 0;
    while i < xlen
        invariant
            0 <= i <= xlen,
            base == slen - xlen,
            slen == s@.len(),
            xlen == suffix@.len(),
            forall|k: int| 0 <= k < i ==> s@[base + k] == suffix@[k],
        decreases xlen - i,
    {
        if s.get_char(base + i) != suffix.get_char(i) {
            proof {
                assert(s@.skip(base as int)[i as int] == s@[base + i]);
            }
            return None;
        }
        i = i + 1;
    }
    proof {
        assert(s@.skip(base as int) =~= suffix@);
    }
    let front = s.substring_char(0, base);
    proof {
        assert(front@ =~= s@.take(base as int));
    }
    Some(String::from_str(front))
}

// ---------------------------------------------------------------------------
// Decimal numbers
// ---------------------------------------------------------------------------

pub open spec fn spec_is_digit(c: char) -> bool {
    48 <= c as u32 <= 57
}

pub open spec fn spec_digit_val(c: char) -> int {
    c as u32 - 48
}

pub open spec fn spec_all_digits(s: Seq<char>) -> bool {
    forall|k: int| 0 <= k < s.len() ==> spec_is_digit(s[k])
}

/// The numeric value of a digit string, most significant digit first.
pub open spec fn spec_decimal_value(s: Seq<char>) -> int
    decreases s.len(),
{
    if s.len() == 0 {
        0
    } else {
        spec_decimal_value(s.drop_last()) * 10 + spec_digit_val(s.last())
    }
}

proof fn lemma_decimal_value_nonneg(s: Seq<char>)
    requires
        spec_all_digits(s),
    ensures
        spec_decimal_value(s) >= 0,
    decreases s.len(),
{
    if s.len() > 0 {
        assert(spec_all_digits(s.drop_last()));
        lemma_decimal_value_nonneg(s.drop_last());
    }
}

proof fn lemma_decimal_value_extend(s: Seq<char>, i: int)
    requires
        0 <= i <= s.len(),
        spec_all_digits(s),
    ensures
        spec_decimal_value(s) >= spec_decimal_value(s.take(i)),
    decreases s.len() - i,
{
    if i < s.len() {
        lemma_decimal_value_extend(s, i + 1);
        let t = s.take(i + 1);
        assert(t.drop_last() =~= s.take(i));
        assert(spec_all_digits(t.take(i)));
        lemma_decimal_value_nonneg(s.take(i));
        assert(spec_is_digit(t.last()));
        assert(spec_decimal_value(t) >= spec_decimal_value(s.take(i)));
    } else {
        assert(s.take(i) =~= s);
    }
}

/// Parse a decimal string as a `u8`: all digits, value at most 255.
pub fn parse_u8_decimal(s: &str) -> (r: Option<u8>)
    ensures
        match r {
            Some(v) => s@.len() > 0 && spec_all_digits(s@) && spec_decimal_value(s@) == v as int,
            None => s@.len() == 0 || !spec_all_digits(s@) || spec_decimal_value(s@) > 255,
        },
{
    let n = s.unicode_len();
    if n == 0 {
        return None;
    }
    let mut acc: u32 = 0;
    let mut i: usize = 0;
    proof {
        assert(s@.take(0) =~= Seq::<char>::empty());
    }
    while i < n
        invariant
            0 <= i <= n,
            n == s@.len(),
            forall|k: int| 0 <= k < i ==> spec_is_digit(s@[k]),
            acc as int == spec_decimal_value(s@.take(i as int)),
            acc <= 255,
        decreases n - i,
    {
        let c = s.get_char(i);
        let u = c as u32;
        if u < 48 || u > 57 {
            return None;
        }
        let d = u - 48;
        let next = acc * 10 + d;
        proof {
            assert(s@.take(i + 1).drop_last() =~= s@.take(i as int));
            assert(s@.take(i + 1).last() == s@[i as int]);
        }
        if next > 255 {
            proof {
                if spec_all_digits(s@) {
                    lemma_decimal_value_extend(s@, i + 1);
                }
            }
            return None;
        }
        acc = next;
        i = i + 1;
    }
    proof {
        assert(s@.take(n as int) =~= s@);
    }
    Some(acc as u8)
}

/// Every position in the window `[j, j+n)` holds an ASCII digit.
pub open spec fn spec_window_all_digits(s: Seq<char>, j: int, n: int) -> bool {
    forall|k: int| j <= k < j + n ==> spec_is_digit(s[k])
}

/// `s` holds `n` consecutive ASCII digits somewhere.
pub open spec fn spec_has_digit_run(s: Seq<char>, n: int) -> bool {
    exists|j: int| 0 <= j && j + n <= s.len() && spec_window_all_digits(s, j, n)
}

/// Scan for a run of `n` consecutive ASCII digits.
pub fn has_digit_run(s: &str, n: usize) -> (r: bool)
    requires
        n >= 1,
    ensures
        r == spec_has_digit_run(s@, n as int),
{
    let len = s.unicode_len();
    let mut i: usize = 0;
    let mut run: usize = 0;
    while i < len
        invariant
            0 <= i <= len,
            len == s@.len(),
            n >= 1,
            run <= i,
            run < n,
            forall|k: int| i - run <= k < i ==> spec_is_digit(s@[k]),
            run < i ==> !spec_is_digit(s@[i - run - 1]),
            forall|j: int| 0 <= j && j + n <= i ==> !spec_window_all_digits(s@, j, n as int),
        decreases len - i,
    {
        let u = s.get_char(i) as u32;
        if 48 <= u && u <= 57 {
            run = run + 1;
            if run == n {
                proof {
                    assert forall|k: int| i + 1 - n <= k < i + 1 implies spec_is_digit(
                        s@[k],
                    ) by {}
                    assert(spec_window_all_digits(s@, i + 1 - n, n as int));
                }
                return true;
            }
            proof {
                assert forall|j: int| 0 <= j && j + n <= i + 1 implies !spec_window_all_digits(
                    s@,
                    j,
                    n as int,
                ) by {
                    if j + n == i + 1 {
                        // The window reaches back past the current digit
                        // run, whose predecessor is not a digit.
                        assert(run < i + 1);
                        assert(j <= i - run < j + n);
                        if spec_window_all_digits(s@, j, n as int) {
                            assert(spec_is_digit(s@[i - run]));
                        }
                    }
                }
            }
        } else {
            run = 0;
            proof {
                assert forall|j: int| 0 <= j && j + n <= i + 1 implies !spec_window_all_digits(
                    s@,
                    j,
                    n as int,
                ) by {
                    if j + n == i + 1 {
                        if spec_window_all_digits(s@, j, n as int) {
                            assert(spec_is_digit(s@[i as int]));
                        }
                    }
                }
            }
        }
        i = i + 1;
    }
    proof {
        if spec_has_digit_run(s@, n as int) {
            let j = choose|j: int|
                0 <= j && j + n <= s@.len() && #[trigger] spec_window_all_digits(s@, j, n as int);
            assert(!spec_window_all_digits(s@, j, n as int));
        }
    }
    false
}

pub open spec fn spec_digit_char(d: int) -> char {
    if d == 0 {
        '0'
    } else if d == 1 {
        '1'
    } else if d == 2 {
        '2'
    } else if d == 3 {
        '3'
    } else if d == 4 {
        '4'
    } else if d == 5 {
        '5'
    } else if d == 6 {
        '6'
    } else if d == 7 {
        '7'
    } else if d == 8 {
        '8'
    } else {
        '9'
    }
}

/// The decimal rendering of a byte value, without leading zeros.
pub open spec fn spec_u8_decimal(v: u8) -> Seq<char> {
    if v < 10 {
        seq![spec_digit_char(v as int)]
    } else if v < 100 {
        seq![spec_digit_char(v as int / 10), spec_digit_char(v as int % 10)]
    } else {
        seq![
            spec_digit_char(v as int / 100),
            spec_digit_char((v as int / 10) % 10),
            spec_digit_char(v as int % 10),
        ]
    }
}

fn digit_str(d: u8) -> (r: &'static str)
    requires
        d < 10,
    ensures
        r@ == seq![spec_digit_char(d as int)],
{
    proof {
        reveal_strlit("0");
        reveal_strlit("1");
        reveal_strlit("2");
        reveal_strlit("3");
        reveal_strlit("4");
        reveal_strlit("5");
        reveal_strlit("6");
        reveal_strlit("7");
        reveal_strlit("8");
        reveal_strlit("9");
    }
    let r = if d == 0 {
        "0"
    } else if d == 1 {
        "1"
    } else if d == 2 {
        "2"
    } else if d == 3 {
        "3"
    } else if d == 4 {
        "4"
    } else if d == 5 {
        "5"
    } else if d == 6 {
        "6"
    } else if d == 7 {
        "7"
    } else if d == 8 {
        "8"
    } else {
        "9"
    };
    proof {
        assert(r@ =~= seq![spec_digit_char(d as int)]);
    }
    r
}

// ---------------------------------------------------------------------------
// Distinct name lists
// ---------------------------------------------------------------------------

/// `vs` with `x` appended unless already present.
pub open spec fn spec_insert_unique(vs: Seq<Seq<char>>, x: Seq<char>) -> Seq<Seq<char>> {
    if vs.contains(x) {
        vs
    } else {
        vs.push(x)
    }
}

/// The distinct elements of `vs`, each at its first occurrence.
pub open spec fn spec_dedup(vs: Seq<Seq<char>>) -> Seq<Seq<char>>
    decreases vs.len(),
{
    if vs.len() == 0 {
        Seq::empty()
    } else {
        spec_insert_unique(spec_dedup(vs.drop_last()), vs.last())
    }
}

pub proof fn lemma_push_contains(s: Seq<Seq<char>>, x: Seq<char>, y: Seq<char>)
    ensures
        s.push(x).contains(y) <==> (s.contains(y) || y == x),
{
    if s.contains(y) {
        let i = choose|i: int| 0 <= i < s.len() && s[i] == y;
        assert(s.push(x)[i] == y);
    }
    if y == x {
        assert(s.push(x)[s.len() as int] == y);
    }
    if s.push(x).contains(y) {
        let i = choose|i: int| 0 <= i < s.push(x).len() && s.push(x)[i] == y;
        if i < s.len() {
            assert(s[i] == y);
        }
    }
}

/// Law: deduplication keeps exactly the original elements, once each.
pub proof fn lemma_dedup_elements(vs: Seq<Seq<char>>)
    ensures
        forall|x: Seq<char>| #[trigger] spec_dedup(vs).contains(x) <==> vs.contains(x),
        spec_dedup(vs).no_duplicates(),
    decreases vs.len(),
{
    if vs.len() == 0 {
        assert forall|x: Seq<char>| !vs.contains(x) by {}
    } else {
        let pre = vs.drop_last();
        let last = vs.last();
        lemma_dedup_elements(pre);
        let dpre = spec_dedup(pre);
        assert forall|x: Seq<char>| #[trigger] spec_dedup(vs).contains(x) <==> vs.contains(x) by {
            lemma_push_contains(dpre, last, x);
            lemma_push_contains(pre, last, x);
            assert(pre.push(last) =~= vs);
        }
        if !dpre.contains(last) {
            assert(spec_dedup(vs) == dpre.push(last));
            assert forall|i: int, j: int|
                0 <= i < spec_dedup(vs).len() && 0 <= j < spec_dedup(vs).len() && i != j
                    implies spec_dedup(vs)[i] != spec_dedup(vs)[j] by {
                if i < dpre.len() && j < dpre.len() {
                } else if i < dpre.len() {
                    assert(dpre[i] == dpre[i]);
                } else if j < dpre.len() {
                    assert(dpre[j] == dpre[j]);
                }
            }
        }
    }
}

/// Whether some element of `names` reads `x`.
pub fn contains_name(names: &Vec<String>, x: &str) -> (r: bool)
    ensures
        r == names@.map_values(|s: String| s@).contains(x@),
{
    let ghost views = names@.map_values(|s: String| s@);
    let mut i: usize = 0;
    while i < names.len()
        invariant
            0 <= i <= names@.len(),
            views == names@.map_values(|s: String| s@),
            forall|k: int| 0 <= k < i ==> views[k] != x@,
        decreases names@.len() - i,
    {
        if str_eq_str(names[i].as_str(), x) {
            proof {
                assert(views[i as int] == x@);
            }
            return true;
        }
        i = i + 1;
    }
    proof {
        if views.contains(x@) {
            let k = choose|k: int| 0 <= k < views.len() && views[k] == x@;
            assert(views[k] != x@);
        }
    }
    false
}

/// Append `x` unless an equal name is already present.
pub fn push_unique(names: &mut Vec<String>, x: String)
    ensures
        final(names)@.map_values(|s: String| s@) == spec_insert_unique(
            old(names)@.map_values(|s: String| s@),
            x@,
        ),
{
    let ghost old_views = names@.map_values(|s: String| s@);
    if !contains_name(names, x.as_str()) {
        names.push(x);
        proof {
            assert(names@.map_values(|s: String| s@) =~= old_views.push(x@));
        }
    }
}

// ---------------------------------------------------------------------------
// Rendering
// ---------------------------------------------------------------------------

/// Render a byte value in decimal, as `spec_u8_decimal` describes.
pub fn u8_to_decimal(v: u8) -> (r: String)
    ensures
        r@ == spec_u8_decimal(v),
{
    let mut out = String::new();
    if v >= 100 {
        out.append(digit_str(v / 100));
    }
    if v >= 10 {
        out.append(digit_str((v / 10) % 10));
    }
    out.append(digit_str(v % 10));
    proof {
        assert(out@ =~= spec_u8_decimal(v));
    }
    out
}

} // verus!
