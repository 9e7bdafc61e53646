//! Reading the text in which the kernel driver describes a node: one
//! property to a line, its name and its value with one space between them.

use vstd::prelude::*;

verus! {

/// Whether a byte is white space: a space, a tab, a line feed, a vertical
/// tab, a form feed or a carriage return.
pub open spec fn is_space(b: u8) -> bool {
    b == 32 || (9 <= b <= 13)
}

/// Whether a byte is a decimal digit.
pub open spec fn is_digit(b: u8) -> bool {
    48 <= b <= 57
}

/// The position of the first byte at or behind `from` and in front of `to`
/// that is `b`; `to` where there is none.
pub open spec fn first_byte(s: Seq<u8>, b: u8, from: int, to: int) -> int
    decreases to - from,
{
    if from >= to {
        to
    } else if s[from] == b {
        from
    } else {
        first_byte(s, b, from + 1, to)
    }
}

/// The position of the first byte at or behind `from` and in front of `to`
/// that is `b`.
pub fn find_byte(s: &[u8], b: u8, from: usize, to: usize) -> (r: usize)
    requires
        from <= to <= s@.len(),
    ensures
        r == first_byte(s@, b, from as int, to as int),
        from <= r <= to,
{
    let mut i: usize = from;
    while i < to
        invariant
            from <= i <= to <= s@.len(),
            first_byte(s@, b, i as int, to as int) == first_byte(s@, b, from as int, to as int),
        decreases to - i,
    {
        if s[i] == b {
            return i;
        }
        i = i + 1;
    }
    to
}

/// The position of the first byte at or behind `from` and in front of `to`
/// that is no white space; `to` where there is none.
pub open spec fn skip_spaces(s: Seq<u8>, from: int, to: int) -> int
    decreases to - from,
{
    if from >= to {
        to
    } else if !is_space(s[from]) {
        from
    } else {
        skip_spaces(s, from + 1, to)
    }
}

/// The position behind the last byte in front of `to` and at or behind `from`
/// that is no white space; `from` where there is none.
pub open spec fn drop_spaces(s: Seq<u8>, from: int, to: int) -> int
    decreases to - from,
{
    if from >= to {
        from
    } else if !is_space(s[to - 1]) {
        to
    } else {
        drop_spaces(s, from, to - 1)
    }
}

/// `skip_spaces` and `drop_spaces` stay between `from` and `to`.
pub proof fn lemma_trim_bounds(s: Seq<u8>, from: int, to: int)
    requires
        0 <= from <= to <= s.len(),
    ensures
        from <= skip_spaces(s, from, to) <= to,
        from <= drop_spaces(s, from, to) <= to,
    decreases to - from,
{
    if from < to {
        if is_space(s[from]) {
            lemma_trim_bounds(s, from + 1, to);
        }
        if is_space(s[to - 1]) {
            lemma_trim_bounds(s, from, to - 1);
        }
    }
}

/// Where the bytes from `from` to `to` start and end once the white space at
/// both ends is left aside.
pub fn trim_range(s: &[u8], from: usize, to: usize) -> (r: (usize, usize))
    requires
        from <= to <= s@.len(),
    ensures
        r.0 == skip_spaces(s@, from as int, to as int),
        r.1 == drop_spaces(s@, r.0 as int, to as int),
        from <= r.0 <= r.1 <= to,
        s@.subrange(r.0 as int, r.1 as int) == trimmed(s@, from as int, to as int),
{
    proof {
        lemma_trim_bounds(s@, from as int, to as int);
    }
    let mut a: usize = from;
    while a < to && is_space_byte(s[a])
        invariant
            from <= a <= to <= s@.len(),
            skip_spaces(s@, a as int, to as int) == skip_spaces(s@, from as int, to as int),
        decreases to - a,
    {
        a = a + 1;
    }
    proof {
        lemma_trim_bounds(s@, a as int, to as int);
    }
    let mut b: usize = to;
    while b > a && is_space_byte(s[b - 1])
        invariant
            a <= b <= to <= s@.len(),
            drop_spaces(s@, a as int, b as int) == drop_spaces(s@, a as int, to as int),
        decreases b - a,
    {
        b = b - 1;
    }
    (a, b)
}

/// The bytes from `from` to `to` without the white space at both ends.
pub open spec fn trimmed(s: Seq<u8>, from: int, to: int) -> Seq<u8> {
    s.subrange(skip_spaces(s, from, to), drop_spaces(s, skip_spaces(s, from, to), to))
}

/// The number that the digits `t` write in decimal.
pub open spec fn digits_value(t: Seq<u8>) -> nat
    decreases t.len(),
{
    if t.len() == 0 {
        0
    } else {
        digits_value(t.drop_last()) * 10 + (t.last() - 48) as nat
    }
}

/// Whether every byte of `t` is a digit.
pub open spec fn all_digits(t: Seq<u8>) -> bool {
    forall|i: int| 0 <= i < t.len() ==> is_digit(#[trigger] t[i])
}

/// The digits of a number in decimal: `t` without the plus sign that may
/// stand in front.
pub open spec fn unsigned_part(t: Seq<u8>) -> Seq<u8> {
    if t.len() > 0 && t[0] == 43 {
        t.subrange(1, t.len() as int)
    } else {
        t
    }
}

/// The number that `t` writes in decimal, where it writes one that a `u64`
/// holds: digits and nothing else, but for a plus sign in front.
pub open spec fn decimal(t: Seq<u8>) -> Option<u64> {
    if unsigned_part(t).len() > 0 && all_digits(unsigned_part(t)) && digits_value(unsigned_part(t))
        <= u64::MAX {
        Some(digits_value(unsigned_part(t)) as u64)
    } else {
        None
    }
}

/// The digits of a number write no less than its leading digits do.
pub proof fn lemma_digits_value_grows(t: Seq<u8>, k: int)
    requires
        0 <= k <= t.len(),
        all_digits(t),
    ensures
        digits_value(t.take(k)) <= digits_value(t),
    decreases t.len() - k,
{
    if k < t.len() {
        assert(t.take(k + 1).drop_last() =~= t.take(k));
        assert(is_digit(t[k]));
        lemma_digits_value_grows(t, k + 1);
    } else {
        assert(t.take(k) =~= t);
    }
}

/// Reads the bytes from `from` to `to` as a number in decimal.
pub fn parse_decimal(s: &[u8], from: usize, to: usize) -> (r: Option<u64>)
    requires
        from <= to <= s@.len(),
    ensures
        r == decimal(s@.subrange(from as int, to as int)),
{
    let ghost t = s@.subrange(from as int, to as int);
    let start: usize = if from < to && s[from] == 43 {
        from + 1
    } else {
        from
    };
    let ghost d = unsigned_part(t);
    assert(d =~= s@.subrange(start as int, to as int));
    if start == to {
        return None;
    }
    let mut value: u64 = 0;
    let mut i: usize = start;
    assert(d.take(0) =~= Seq::<u8>::empty());
    while i < to
        invariant
            from <= start <= i <= to <= s@.len(),
            start < to,
            d == s@.subrange(start as int, to as int),
            d == unsigned_part(s@.subrange(from as int, to as int)),
            all_digits(d.take(i - start)),
            value == digits_value(d.take(i - start)),
        decreases to - i,
    {
        let b: u8 = s[i];
        let ghost k = i - start;
        assert(d[k] == b);
        assert(d.take(k + 1).drop_last() =~= d.take(k));
        if b < 48 || b > 57 {
            assert(!all_digits(d));
            return None;
        }
        let next: Option<u64> = match value.checked_mul(10) {
            Some(v) => v.checked_add((b - 48) as u64),
            None => None,
        };
        match next {
            Some(v) => {
                assert(all_digits(d.take(k + 1))) by {
                    assert forall|j: int| 0 <= j < k + 1 implies is_digit(
                        #[trigger] d.take(k + 1)[j],
                    ) by {
                        if j < k {
                            assert(d.take(k)[j] == d.take(k + 1)[j]);
                        }
                    }
                }
                value = v;
            },
            None => {
                proof {
                    if all_digits(d) {
                        lemma_digits_value_grows(d, k + 1);
                    }
                }
                return None;
            },
        }
        i = i + 1;
    }
    assert(d.take(to - start) =~= d);
    Some(value)
}

/// Whether the bytes from `from` to `to` spell `key`.
pub open spec fn spells(s: Seq<u8>, from: int, to: int, key: Seq<char>) -> bool {
    to - from == key.len() && forall|j: int|
        0 <= j < key.len() ==> s[from + j] as u32 == #[trigger] key[j] as u32
}

/// Whether the bytes from `from` to `to` spell `key`.
pub fn spells_key(s: &[u8], from: usize, to: usize, key: &str) -> (r: bool)
    requires
        from <= to <= s@.len(),
    ensures
        r == spells(s@, from as int, to as int, key@),
{
    let n: usize = key.unicode_len();
    if to - from != n {
        return false;
    }
    let mut j: usize = 0;
    while j < n
        invariant
            from <= to <= s@.len(),
            n == key@.len(),
            to - from == n,
            0 <= j <= n,
            forall|k: int| 0 <= k < j ==> s@[from + k] as u32 == #[trigger] key@[k] as u32,
        decreases n - j,
    {
        if s[from + j] as u32 != key.get_char(j) as u32 {
            return false;
        }
        j = j + 1;
    }
    true
}

/// The value of property `key` that the line from `from` to `to` gives, where
/// it gives one: the line holds one space, `key` stands in front of it, and
/// behind it stands a number in decimal, with or without white space around
/// it.
pub open spec fn line_value(s: Seq<u8>, from: int, to: int, key: Seq<char>) -> Option<u64> {
    let space = first_byte(s, 32, from, to);
    if space < to && first_byte(s, 32, space + 1, to) == to && spells(s, from, space, key) {
        decimal(trimmed(s, space + 1, to))
    } else {
        None
    }
}

/// Reads the line from `from` to `to` as the value of property `key`.
pub fn parse_line(s: &[u8], from: usize, to: usize, key: &str) -> (r: Option<u64>)
    requires
        from <= to <= s@.len(),
    ensures
        r == line_value(s@, from as int, to as int, key@),
{
    let space: usize = find_byte(s, 32, from, to);
    if space >= to {
        return None;
    }
    if find_byte(s, 32, space + 1, to) != to {
        return None;
    }
    if !spells_key(s, from, space, key) {
        return None;
    }
    let (a, b) = trim_range(s, space + 1, to);
    parse_decimal(s, a, b)
}

/// Whether a byte is white space.
pub fn is_space_byte(b: u8) -> (r: bool)
    ensures
        r == is_space(b),
{
    b == 32 || (9 <= b && b <= 13)
}

/// The value of property `key` in the text from `from` on, given that the
/// text in front of `from` gave `found`: the value that the last line with
/// the property gives.
pub open spec fn property_from(s: Seq<u8>, from: int, key: Seq<char>, found: Option<u64>)
    -> Option<u64>
    decreases s.len() - from,
{
    if from > s.len() {
        found
    } else {
        let end = first_byte(s, 10, from, s.len() as int);
        let here = line_value(s, from, end, key);
        let so_far = if here is Some {
            here
        } else {
            found
        };
        if end >= s.len() || end < from {
            so_far
        } else {
            property_from(s, end + 1, key, so_far)
        }
    }
}

/// The value of property `key` in the text `s`, where a line gives one.
pub open spec fn property_of(s: Seq<u8>, key: Seq<char>) -> Option<u64> {
    property_from(s, 0, key, None)
}

/// Looks the value of property `key` up in the text `s`.
pub fn find_property(s: &[u8], key: &str) -> (r: Option<u64>)
    ensures
        r == property_of(s@, key@),
{
    let n: usize = s.len();
    let mut found: Option<u64> = None;
    let mut from: usize = 0;
    loop
        invariant_except_break
            n == s@.len(),
            0 <= from <= n,
            property_from(s@, from as int, key@, found) == property_of(s@, key@),
        ensures
            found == property_of(s@, key@),
        decreases n - from,
    {
        let end: usize = find_byte(s, 10, from, n);
        match parse_line(s, from, end, key) {
            Some(v) => {
                found = Some(v);
            },
            None => {},
        }
        if end >= n {
            break ;
        }
        from = end + 1;
    }
    found
}

/// Where the line from `from` to `to` has the text of property `key`: the
/// line holds one space, `key` stands in front of it, and the text is what
/// stands behind it.
pub open spec fn line_text(s: Seq<u8>, from: int, to: int, key: Seq<char>) -> Option<(int, int)> {
    let space = first_byte(s, 32, from, to);
    if space < to && first_byte(s, 32, space + 1, to) == to && spells(s, from, space, key) {
        Some((space + 1, to))
    } else {
        None
    }
}

/// Where the text of property `key` stands in the text from `from` on, given
/// that the text in front of `from` gave `found`: in the last line with the
/// property.
pub open spec fn text_from(s: Seq<u8>, from: int, key: Seq<char>, found: Option<(int, int)>)
    -> Option<(int, int)>
    decreases s.len() - from,
{
    if from > s.len() {
        found
    } else {
        let end = first_byte(s, 10, from, s.len() as int);
        let here = line_text(s, from, end, key);
        let so_far = if here is Some {
            here
        } else {
            found
        };
        if end >= s.len() || end < from {
            so_far
        } else {
            text_from(s, end + 1, key, so_far)
        }
    }
}

/// Where the text of property `key` stands in `s`, where a line gives one.
pub open spec fn text_of(s: Seq<u8>, key: Seq<char>) -> Option<(int, int)> {
    text_from(s, 0, key, None)
}

/// Looks up where the text of property `key` stands in `s`: its first byte
/// and the byte behind its last.
pub fn find_property_text(s: &[u8], key: &str) -> (r: Option<(usize, usize)>)
    ensures
        r is Some <==> text_of(s@, key@) is Some,
        r is Some ==> r->Some_0.0 == text_of(s@, key@)->Some_0.0 && r->Some_0.1 == text_of(
            s@,
            key@,
        )->Some_0.1 && r->Some_0.0 <= r->Some_0.1 <= s@.len(),
{
    let n: usize = s.len();
    let mut found: Option<(usize, usize)> = None;
    let ghost mut model: Option<(int, int)> = None;
    let mut from: usize = 0;
    loop
        invariant_except_break
            n == s@.len(),
            0 <= from <= n,
            text_from(s@, from as int, key@, model) == text_of(s@, key@),
            found is Some <==> model is Some,
            found is Some ==> found->Some_0.0 == model->Some_0.0 && found->Some_0.1
                == model->Some_0.1 && found->Some_0.0 <= found->Some_0.1 <= n,
        ensures
            found is Some <==> text_of(s@, key@) is Some,
            found is Some ==> found->Some_0.0 == text_of(s@, key@)->Some_0.0 && found->Some_0.1
                == text_of(s@, key@)->Some_0.1 && found->Some_0.0 <= found->Some_0.1 <= n,
        decreases n - from,
    {
        let end: usize = find_byte(s, 10, from, n);
        let space: usize = find_byte(s, 32, from, end);
        if space < end && find_byte(s, 32, space + 1, end) == end && spells_key(s, from, space, key) {
            found = Some((space + 1, end));
            proof {
                model = Some((space + 1, end as int));
            }
        }
        if end >= n {
            break ;
        }
        from = end + 1;
    }
    found
}

} // verus!
