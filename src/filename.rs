use vstd::prelude::*;

use crate::error::ImportError;

verus! {

/// Marker that opens the identifier segment of a filename.
pub const ID_MARKER: &'static str = "-mid";

/// Delimiter that closes the identifier segment.
pub const ID_END: char = '-';

/// Substring that marks a filename as a combine match.
pub const COMBINE_TAG: &'static str = "combine";

/// Whether `c` is an ASCII decimal digit.
pub open spec fn is_digit(c: char) -> bool {
    '0' <= c && c <= '9'
}

/// The numeric value of the decimal digit `c`.
pub open spec fn digit_value(c: char) -> nat {
    (c as nat - '0' as nat) as nat
}

/// The number written by the decimal digits `d` (most significant first).
pub open spec fn decimal_value(d: Seq<char>) -> nat
    decreases d.len(),
{
    if d.len() == 0 {
        0
    } else {
        decimal_value(d.drop_last()) * 10 + digit_value(d.last())
    }
}

/// `t` occurs in `s` starting at index `i`.
pub open spec fn occurs_at(s: Seq<char>, t: Seq<char>, i: int) -> bool {
    0 <= i && i + t.len() <= s.len() && s.subrange(i, i + t.len()) == t
}

/// `t` occurs somewhere in `s`.
pub open spec fn contains(s: Seq<char>, t: Seq<char>) -> bool {
    exists|i: int| occurs_at(s, t, i)
}

/// The index just past the run of digits that starts at `k`.
pub open spec fn digit_run_end(s: Seq<char>, k: int) -> int
    decreases s.len() - k,
{
    if 0 <= k < s.len() && is_digit(s[k]) {
        digit_run_end(s, k + 1)
    } else {
        k
    }
}

/// Index of the first digit of an identifier segment starting at `i`.
pub open spec fn id_start(i: int) -> int {
    i + ID_MARKER@.len()
}

/// An identifier segment (marker, digits, closing delimiter) starts at `i`.
pub open spec fn marker_at(s: Seq<char>, i: int) -> bool {
    let e = digit_run_end(s, id_start(i));
    occurs_at(s, ID_MARKER@, i) && e < s.len() && s[e] == ID_END
}

/// The first identifier segment at or after `k`.
pub open spec fn marker_from(s: Seq<char>, k: int) -> Option<int>
    decreases s.len() - k,
{
    if 0 <= k < s.len() {
        if marker_at(s, k) {
            Some(k)
        } else {
            marker_from(s, k + 1)
        }
    } else {
        None
    }
}

/// The leftmost identifier segment of `s`.
pub open spec fn first_marker(s: Seq<char>) -> Option<int> {
    marker_from(s, 0)
}

/// The digits of the identifier segment that starts at `i`.
pub open spec fn id_digits(s: Seq<char>, i: int) -> Seq<char> {
    s.subrange(id_start(i), digit_run_end(s, id_start(i)))
}

/// The map digit right after the identifier segment that starts at `i`, if any.
pub open spec fn map_digit_after(s: Seq<char>, i: int) -> Option<u8> {
    let p = digit_run_end(s, id_start(i)) + 1;
    if p < s.len() && is_digit(s[p]) {
        Some(digit_value(s[p]) as u8)
    } else {
        None
    }
}

/// What a filename says about its match.
#[derive(Debug, Clone, Copy, PartialEq, Eq, Structural)]
pub struct ParsedName {
    /// The numeric match identifier.
    pub match_id: i64,
    /// The filename carries the combine tag.
    pub is_combine: bool,
    /// The digit that follows the identifier segment, if any.
    pub map_number: Option<u8>,
}

/// The meaning of a filename: `Ok(None)` when it has no identifier segment.
pub open spec fn parse_name(s: Seq<char>) -> Result<Option<ParsedName>, ImportError> {
    match first_marker(s) {
        None => Ok(None),
        Some(i) => {
            let d = id_digits(s, i);
            if d.len() == 0 || decimal_value(d) > i64::MAX {
                Err(ImportError::InvalidMatchId)
            } else {
                Ok(
                    Some(
                        ParsedName {
                            match_id: decimal_value(d) as i64,
                            is_combine: contains(s, COMBINE_TAG@),
                            map_number: map_digit_after(s, i),
                        },
                    ),
                )
            }
        },
    }
}

/// The characters of `s`, one per element.
pub fn chars_of(s: &str) -> (r: Vec<char>)
    ensures
        r@ == s@,
{
    let n = s.unicode_len();
    let mut r: Vec<char> = Vec::new();
    let mut i: usize = 0;
    while i < n
        invariant
            n == s@.len(),
            i <= n,
            r@ == s@.subrange(0, i as int),
        decreases n - i,
    {
        r.push(s.get_char(i));
        i = i + 1;
    }
    assert(r@ == s@);
    r
}

/// Tests for an ASCII decimal digit.
pub fn char_is_digit(c: char) -> (r: bool)
    ensures
        r == is_digit(c),
{
    '0' <= c && c <= '9'
}

/// Whether `t` occurs in `s` at index `i`.
pub fn occurs_at_exec(s: &Vec<char>, t: &Vec<char>, i: usize) -> (r: bool)
    ensures
        r == occurs_at(s@, t@, i as int),
{
    if i > s.len() || t.len() > s.len() - i {
        return false;
    }
    let mut j: usize = 0;
    while j < t.len()
        invariant
            s@.len() <= usize::MAX,
            i + t@.len() <= s@.len(),
            j <= t@.len(),
            forall|k: int| 0 <= k < j ==> s@[i + k] == t@[k],
        decreases t.len() - j,
    {
        if s[i + j] != t[j] {
            assert(s@.subrange(i as int, i + t@.len())[j as int] != t@[j as int]);
            return false;
        }
        j = j + 1;
    }
    assert(s@.subrange(i as int, i + t@.len()) == t@);
    true
}

/// Whether `t` occurs anywhere in `s`.
pub fn contains_exec(s: &Vec<char>, t: &Vec<char>) -> (r: bool)
    ensures
        r == contains(s@, t@),
{
    if t.len() > s.len() {
        assert(!contains(s@, t@));
        return false;
    }
    let last = s.len() - t.len();
    let mut i: usize = 0;
    loop
        invariant
            last == s@.len() - t@.len(),
            i <= last,
            forall|k: int| 0 <= k < i ==> !occurs_at(s@, t@, k),
        ensures
            forall|k: int| 0 <= k <= last ==> !occurs_at(s@, t@, k),
        decreases last - i,
    {
        if occurs_at_exec(s, t, i) {
            return true;
        }
        if i == last {
            break;
        }
        i = i + 1;
    }
    assert forall|k: int| !occurs_at(s@, t@, k) by {
        if 0 <= k <= last {
        }
    }
    false
}

/// Index just past the run of digits that starts at `k`.
pub fn digit_run_end_exec(s: &Vec<char>, k: usize) -> (r: usize)
    requires
        k <= s@.len(),
    ensures
        r as int == digit_run_end(s@, k as int),
        k <= r <= s@.len(),
{
    let mut j: usize = k;
    while j < s.len() && char_is_digit(s[j])
        invariant
            k <= j <= s@.len(),
            digit_run_end(s@, k as int) == digit_run_end(s@, j as int),
        decreases s.len() - j,
    {
        j = j + 1;
    }
    j
}

/// Whether an identifier segment starts at `i`.
pub fn marker_at_exec(s: &Vec<char>, marker: &Vec<char>, i: usize) -> (r: bool)
    requires
        marker@ == ID_MARKER@,
    ensures
        r == marker_at(s@, i as int),
{
    if !occurs_at_exec(s, marker, i) {
        return false;
    }
    let n = s.len();
    let e = digit_run_end_exec(s, i + marker.len());
    e < n && s[e] == ID_END
}

/// Index of the leftmost identifier segment.
pub fn find_marker(s: &Vec<char>) -> (r: Option<usize>)
    ensures
        r matches Some(i) ==> first_marker(s@) == Some(i as int) && marker_at(s@, i as int),
        r is None ==> first_marker(s@) is None,
{
    let marker = chars_of(ID_MARKER);
    let mut k: usize = 0;
    while k < s.len()
        invariant
            marker@ == ID_MARKER@,
            k <= s@.len(),
            first_marker(s@) == marker_from(s@, k as int),
        decreases s.len() - k,
    {
        if marker_at_exec(s, &marker, k) {
            return Some(k);
        }
        k = k + 1;
    }
    None
}

/// A longer run of digits never writes a smaller number.
pub proof fn lemma_decimal_prefix_le(d: Seq<char>, n: int)
    requires
        0 <= n <= d.len(),
    ensures
        decimal_value(d.subrange(0, n)) <= decimal_value(d),
    decreases d.len(),
{
    if n < d.len() {
        lemma_decimal_prefix_le(d.drop_last(), n);
        assert(d.drop_last().subrange(0, n) == d.subrange(0, n));
    } else {
        assert(d.subrange(0, n) == d);
    }
}

/// The number written by the digits `s[from..to]`, or `None` when there are
/// none or it exceeds `i64::MAX`.
pub fn parse_decimal(s: &Vec<char>, from: usize, to: usize) -> (r: Option<i64>)
    requires
        from <= to <= s@.len(),
        forall|k: int| from <= k < to ==> is_digit(s@[k]),
    ensures
        ({
            let d = s@.subrange(from as int, to as int);
            if d.len() == 0 || decimal_value(d) > i64::MAX {
                r is None
            } else {
                r == Some(decimal_value(d) as i64)
            }
        }),
{
    if from == to {
        return None;
    }
    let ghost d = s@.subrange(from as int, to as int);
    let mut acc: u128 = 0;
    let mut j: usize = from;
    while j < to
        invariant
            from <= j <= to <= s@.len(),
            forall|k: int| from <= k < to ==> is_digit(s@[k]),
            d == s@.subrange(from as int, to as int),
            acc == decimal_value(s@.subrange(from as int, j as int)),
            acc <= i64::MAX,
        decreases to - j,
    {
        let c = s[j];
        let v: u128 = (c as u32 - 48u32) as u128;
        assert(s@.subrange(from as int, j + 1).drop_last() == s@.subrange(from as int, j as int));
        acc = acc * 10 + v;
        if acc > 9223372036854775807u128 {
            proof {
                assert(d.subrange(0, j + 1 - from) == s@.subrange(from as int, j + 1));
                lemma_decimal_prefix_le(d, j + 1 - from);
            }
            return None;
        }
        j = j + 1;
    }
    Some(acc as i64)
}

/// Reads the match identifier, the combine tag and the map digit from a
/// filename; `Ok(None)` when it has no identifier segment.
pub fn parse_filename(name: &str) -> (r: Result<Option<ParsedName>, ImportError>)
    ensures
        r == parse_name(name@),
        r matches Ok(Some(p)) ==> (p.map_number matches Some(d) ==> d < 10),
{
    let s = chars_of(name);
    match find_marker(&s) {
        None => Ok(None),
        Some(i) => {
            proof {
                reveal_strlit("-mid");
            }
            assert(marker_at(s@, i as int));
            let start = i + 4;
            let e = digit_run_end_exec(&s, start);
            proof {
                lemma_digit_run(s@, start as int);
            }
            match parse_decimal(&s, start, e) {
                None => Err(ImportError::InvalidMatchId),
                Some(id) => {
                    let tag = chars_of(COMBINE_TAG);
                    let is_combine = contains_exec(&s, &tag);
                    let map_number = if e + 1 < s.len() && char_is_digit(s[e + 1]) {
                        Some((s[e + 1] as u32 - 48u32) as u8)
                    } else {
                        None
                    };
                    Ok(Some(ParsedName { match_id: id, is_combine, map_number }))
                },
            }
        },
    }
}

/// Every character of a digit run is a digit.
pub proof fn lemma_digit_run(s: Seq<char>, k: int)
    requires
        0 <= k <= s.len(),
    ensures
        k <= digit_run_end(s, k) <= s.len(),
        forall|j: int| k <= j < digit_run_end(s, k) ==> is_digit(s[j]),
    decreases s.len() - k,
{
    if k < s.len() && is_digit(s[k]) {
        lemma_digit_run(s, k + 1);
    }
}

} // verus!
