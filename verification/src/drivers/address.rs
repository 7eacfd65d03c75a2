//! IP addresses as text: which texts are IP literals.

use vstd::prelude::*;

use crate::drivers::wake_on_lan::is_hex_digit;

verus! {

/// The pieces of `s` between the occurrences of `sep`, in order. There is
/// one piece more than there are occurrences; a piece may be empty.
pub open spec fn split(s: Seq<char>, sep: char) -> Seq<Seq<char>>
    decreases s.len(),
{
    if s.len() == 0 {
        seq![Seq::<char>::empty()]
    } else {
        let before = split(s.drop_last(), sep);
        if s.last() == sep {
            before.push(Seq::<char>::empty())
        } else {
            before.drop_last().push(before.last().push(s.last()))
        }
    }
}

/// Whether `c` is a decimal digit.
pub open spec fn is_digit(c: char) -> bool {
    '0' <= c && c <= '9'
}

/// The number that the decimal digits `t` stand for.
pub open spec fn decimal_value(t: Seq<char>) -> int
    decreases t.len(),
{
    if t.len() == 0 {
        0
    } else {
        10 * decimal_value(t.drop_last()) + (t.last() as int - '0' as int)
    }
}

/// Whether `t` names an octet in decimal: one to three digits, without a
/// leading zero before another digit, of a value up to 255.
pub open spec fn is_octet_text(t: Seq<char>) -> bool {
    &&& 1 <= t.len() <= 3
    &&& forall|i: int| 0 <= i < t.len() ==> is_digit(#[trigger] t[i])
    &&& (t.len() > 1 ==> t[0] != '0')
    &&& decimal_value(t) <= 255
}

/// Whether `t` names sixteen bits in hexadecimal: one to four digits.
pub open spec fn is_hex_group(t: Seq<char>) -> bool {
    &&& 1 <= t.len() <= 4
    &&& forall|i: int| 0 <= i < t.len() ==> is_hex_digit(#[trigger] t[i])
}

/// Whether `s` is an IPv4 address: four octets in decimal with a dot
/// between neighbours.
pub open spec fn is_ipv4_text(s: Seq<char>) -> bool {
    let parts = split(s, '.');
    &&& parts.len() == 4
    &&& forall|i: int| 0 <= i < 4 ==> is_octet_text(#[trigger] parts[i])
}

/// How many groups of sixteen bits piece `i` of an IPv6 address names: one
/// where it is a hexadecimal group, two where it is the last piece and an
/// IPv4 address, none where it is neither.
pub open spec fn part_width(parts: Seq<Seq<char>>, i: int) -> int {
    if is_hex_group(parts[i]) {
        1
    } else if i == parts.len() - 1 && is_ipv4_text(parts[i]) {
        2
    } else {
        0
    }
}

/// Whether each of the pieces from `from` up to `to` names groups.
pub open spec fn are_groups(parts: Seq<Seq<char>>, from: int, to: int) -> bool {
    forall|i: int| from <= i < to ==> #[trigger] part_width(parts, i) > 0
}

/// How many groups the pieces from `from` up to `to` name together.
pub open spec fn width(parts: Seq<Seq<char>>, from: int, to: int) -> int
    decreases to - from,
{
    if to <= from {
        0
    } else {
        width(parts, from, to - 1) + part_width(parts, to - 1)
    }
}

/// Whether `s` is an IPv6 address. Its pieces between the colons name
/// eight groups; or two colons in a row, once, stand for the groups that are
/// left out, of which there is at least one. The last piece may be an IPv4
/// address in place of two groups.
pub open spec fn is_ipv6_text(s: Seq<char>) -> bool {
    let p = split(s, ':');
    let n = p.len() as int;
    ||| are_groups(p, 0, n) && width(p, 0, n) == 8
    ||| n == 3 && p[0].len() == 0 && p[1].len() == 0 && p[2].len() == 0
    ||| n >= 3 && p[0].len() == 0 && p[1].len() == 0 && are_groups(p, 2, n) && width(p, 2, n) <= 7
    ||| n >= 3 && p[n - 1].len() == 0 && p[n - 2].len() == 0 && are_groups(p, 0, n - 2) && width(
        p,
        0,
        n - 2,
    ) <= 7
    ||| exists|k: int|
        0 < k < n - 1 && (#[trigger] p[k]).len() == 0 && are_groups(p, 0, k) && are_groups(
            p,
            k + 1,
            n,
        ) && width(p, 0, k) + width(p, k + 1, n) <= 7
}

/// Whether `s` is an IP address, of either version.
pub open spec fn is_ip_text(s: Seq<char>) -> bool {
    is_ipv4_text(s) || is_ipv6_text(s)
}

/// The texts of a list of pieces.
pub open spec fn texts(parts: Seq<Vec<char>>) -> Seq<Seq<char>> {
    parts.map_values(|p: Vec<char>| p@)
}

/// The characters of `text`.
fn chars_of(text: &str) -> (chars: Vec<char>)
    ensures
        chars@ == text@,
{
    let n = text.unicode_len();
    let mut chars: Vec<char> = Vec::new();
    let mut i: usize = 0;
    while i < n
        invariant
            i <= n,
            n == text@.len(),
            chars@ == text@.take(i as int),
        decreases n - i,
    {
        chars.push(text.get_char(i));
        assert(text@.take(i + 1) =~= text@.take(i as int).push(text@[i as int]));
        i = i + 1;
    }
    assert(text@.take(n as int) =~= text@);
    chars
}

/// Cuts `chars` at each occurrence of `sep`.
fn split_at(chars: &Vec<char>, sep: char) -> (parts: Vec<Vec<char>>)
    ensures
        texts(parts@) == split(chars@, sep),
{
    let mut parts: Vec<Vec<char>> = Vec::new();
    let mut piece: Vec<char> = Vec::new();
    let mut i: usize = 0;
    assert(chars@.take(0) =~= Seq::<char>::empty());
    assert(texts(parts@).push(piece@) =~= seq![Seq::<char>::empty()]);
    while i < chars.len()
        invariant
            i <= chars.len(),
            texts(parts@).push(piece@) == split(chars@.take(i as int), sep),
        decreases chars.len() - i,
    {
        let c = chars[i];
        let ghost seen = chars@.take(i as int);
        let ghost next = chars@.take(i + 1);
        assert(next.drop_last() =~= seen);
        assert(next.last() == c);
        let ghost before = texts(parts@).push(piece@);
        if c == sep {
            let ghost shut = piece@;
            parts.push(piece);
            piece = Vec::new();
            assert(texts(parts@) =~= before);
            assert(texts(parts@).push(piece@) =~= before.push(Seq::<char>::empty()));
        } else {
            piece.push(c);
            assert(texts(parts@).push(piece@) =~= before.drop_last().push(before.last().push(c)));
        }
        i = i + 1;
    }
    assert(chars@.take(chars.len() as int) =~= chars@);
    let ghost open = texts(parts@).push(piece@);
    parts.push(piece);
    assert(texts(parts@) =~= open);
    parts
}

/// Decides whether `t` names an octet in decimal.
fn is_octet(t: &Vec<char>) -> (b: bool)
    ensures
        b == is_octet_text(t@),
{
    if t.len() < 1 || t.len() > 3 {
        return false;
    }
    if t.len() > 1 && t[0] == '0' {
        return false;
    }
    let mut value: u32 = 0;
    let mut i: usize = 0;
    assert(t@.take(0) =~= Seq::<char>::empty());
    while i < t.len()
        invariant
            i <= t.len(),
            t.len() <= 3,
            forall|j: int| 0 <= j < i ==> is_digit(#[trigger] t[j]),
            value == decimal_value(t@.take(i as int)),
            value < 1000,
        decreases t.len() - i,
    {
        let c = t[i];
        if !('0' <= c && c <= '9') {
            return false;
        }
        assert(t@.take(i + 1).drop_last() =~= t@.take(i as int));
        assert(t@.take(i + 1).last() == c);
        proof {
            lemma_decimal_bound(t@.take(i as int));
        }
        value = value * 10 + (c as u32 - '0' as u32);
        proof {
            lemma_decimal_bound(t@.take(i + 1));
        }
        i = i + 1;
    }
    assert(t@.take(t.len() as int) =~= t@);
    value <= 255
}

/// Decimal digits stand for a number below the power of ten of their count.
proof fn lemma_decimal_bound(t: Seq<char>)
    requires
        t.len() <= 3,
        forall|j: int| 0 <= j < t.len() ==> is_digit(#[trigger] t[j]),
    ensures
        0 <= decimal_value(t),
        t.len() == 0 ==> decimal_value(t) == 0,
        t.len() == 1 ==> decimal_value(t) < 10,
        t.len() == 2 ==> decimal_value(t) < 100,
        t.len() == 3 ==> decimal_value(t) < 1000,
    decreases t.len(),
{
    if t.len() > 0 {
        assert(is_digit(t[t.len() - 1]));
        lemma_decimal_bound(t.drop_last());
    }
}

/// Decides whether `t` names sixteen bits in hexadecimal.
fn is_group(t: &Vec<char>) -> (b: bool)
    ensures
        b == is_hex_group(t@),
{
    if t.len() < 1 || t.len() > 4 {
        return false;
    }
    let mut i: usize = 0;
    while i < t.len()
        invariant
            i <= t.len(),
            forall|j: int| 0 <= j < i ==> is_hex_digit(#[trigger] t[j]),
        decreases t.len() - i,
    {
        let c = t[i];
        if !(('0' <= c && c <= '9') || ('a' <= c && c <= 'f') || ('A' <= c && c <= 'F')) {
            return false;
        }
        i = i + 1;
    }
    true
}

/// Decides whether `chars` is an IPv4 address.
fn is_ipv4(chars: &Vec<char>) -> (b: bool)
    ensures
        b == is_ipv4_text(chars@),
{
    let parts = split_at(chars, '.');
    if parts.len() != 4 {
        return false;
    }
    let mut i: usize = 0;
    while i < 4
        invariant
            i <= 4,
            parts.len() == 4,
            texts(parts@) == split(chars@, '.'),
            forall|j: int| 0 <= j < i ==> is_octet_text(#[trigger] texts(parts@)[j]),
        decreases 4 - i,
    {
        assert(texts(parts@)[i as int] == parts[i as int]@);
        if !is_octet(&parts[i]) {
            return false;
        }
        i = i + 1;
    }
    true
}

/// The pieces of a wider range name no fewer groups.
proof fn lemma_width_grows(parts: Seq<Seq<char>>, from: int, mid: int, to: int)
    requires
        from <= mid <= to,
    ensures
        0 <= width(parts, from, mid) <= width(parts, from, to),
    decreases to - from,
{
    if mid < to {
        lemma_width_grows(parts, from, mid, to - 1);
    } else if from < mid {
        lemma_width_grows(parts, from, mid - 1, mid - 1);
    }
}

/// Counts the groups that the pieces from `from` up to `to` name, where
/// each names some and there are no more than eight.
fn groups_width(parts: &Vec<Vec<char>>, from: usize, to: usize) -> (total: Option<u8>)
    requires
        from <= to <= parts.len(),
    ensures
        match total {
            Some(w) => w <= 8 && are_groups(texts(parts@), from as int, to as int) && width(
                texts(parts@),
                from as int,
                to as int,
            ) == w,
            None => !are_groups(texts(parts@), from as int, to as int) || width(
                texts(parts@),
                from as int,
                to as int,
            ) > 8,
        },
{
    let ghost p = texts(parts@);
    let mut total: u8 = 0;
    let mut i: usize = from;
    while i < to
        invariant
            from <= i <= to <= parts.len(),
            p == texts(parts@),
            are_groups(p, from as int, i as int),
            total == width(p, from as int, i as int),
            total <= 8,
        decreases to - i,
    {
        assert(p[i as int] == parts[i as int]@);
        let w: u8 = if is_group(&parts[i]) {
            1
        } else if i == parts.len() - 1 && is_ipv4(&parts[i]) {
            2
        } else {
            0
        };
        assert(w == part_width(p, i as int));
        if w == 0 {
            return None;
        }
        if total + w > 8 {
            proof {
                lemma_width_grows(p, from as int, i + 1, to as int);
            }
            return None;
        }
        total = total + w;
        i = i + 1;
    }
    Some(total)
}

/// Decides whether `chars` is an IPv6 address.
fn is_ipv6(chars: &Vec<char>) -> (b: bool)
    ensures
        b == is_ipv6_text(chars@),
{
    let parts = split_at(chars, ':');
    let n = parts.len();
    let ghost p = texts(parts@);
    assert(n >= 1) by {
        lemma_split_has_a_piece(chars@, ':');
    }
    assert forall|i: int| 0 <= i < n && (#[trigger] p[i]).len() == 0 implies part_width(p, i)
        == 0 by {
        lemma_empty_is_no_group(p, i);
    }
    let mut k: usize = 0;
    while k < n && parts[k].len() > 0
        invariant
            k <= n,
            n == parts.len(),
            p == texts(parts@),
            forall|j: int| 0 <= j < k ==> (#[trigger] p[j]).len() > 0,
        decreases n - k,
    {
        assert(p[k as int] == parts[k as int]@);
        k = k + 1;
    }
    if k == n {
        return match groups_width(&parts, 0, n) {
            Some(w) => w == 8,
            None => false,
        };
    }
    assert(p[k as int] == parts[k as int]@);
    assert(part_width(p, k as int) == 0);
    if k == 0 {
        if n < 3 {
            return false;
        }
        assert(p[1] == parts[1]@);
        assert(p[2] == parts[2]@);
        if parts[1].len() != 0 {
            return false;
        }
        if n == 3 && parts[2].len() == 0 {
            return true;
        }
        return match groups_width(&parts, 2, n) {
            Some(w) => w <= 7,
            None => false,
        };
    }
    if k == n - 1 {
        return false;
    }
    assert(p[n - 1] == parts[n - 1]@);
    if k == n - 2 && parts[n - 1].len() == 0 {
        assert(part_width(p, n - 1) == 0);
        return match groups_width(&parts, 0, n - 2) {
            Some(w) => w <= 7,
            None => false,
        };
    }
    let head = groups_width(&parts, 0, k);
    let tail = groups_width(&parts, k + 1, n);
    match (head, tail) {
        (Some(a), Some(b)) => a + b <= 7,
        _ => false,
    }
}

/// A text has at least one piece.
proof fn lemma_split_has_a_piece(s: Seq<char>, sep: char)
    ensures
        split(s, sep).len() >= 1,
    decreases s.len(),
{
    if s.len() > 0 {
        lemma_split_has_a_piece(s.drop_last(), sep);
    }
}

/// An empty piece names no group.
proof fn lemma_empty_is_no_group(parts: Seq<Seq<char>>, i: int)
    requires
        parts[i].len() == 0,
    ensures
        part_width(parts, i) == 0,
{
    assert(parts[i] =~= Seq::<char>::empty());
    assert(split(Seq::<char>::empty(), '.').len() == 1);
}

/// Decides whether `text` is an IP address, of either version.
pub fn is_ip_literal(text: &str) -> (b: bool)
    ensures
        b == is_ip_text(text@),
{
    let chars = chars_of(text);
    is_ipv4(&chars) || is_ipv6(&chars)
}

} // verus!
