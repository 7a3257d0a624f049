//! Small operations on text, stated over sequences of characters.
use vstd::prelude::*;

verus! {

/// The characters of each text of a list.
pub open spec fn texts(list: Seq<String>) -> Seq<Seq<char>> {
    list.map_values(|s: String| s@)
}

/// Whether two texts hold the same characters.
pub fn same_text(a: &str, b: &str) -> (r: bool)
    ensures
        r == (a@ == b@),
{
    a.to_owned() == b.to_owned()
}

/// `a` followed by `b`.
pub fn concat2(a: &str, b: &str) -> (r: String)
    ensures
        r@ == a@ + b@,
{
    let mut out: String = a.to_owned();
    out.append(b);
    out
}

/// `a` followed by `b` and `c`.
pub fn concat3(a: &str, b: &str, c: &str) -> (r: String)
    ensures
        r@ == a@ + b@ + c@,
{
    let mut out: String = a.to_owned();
    out.append(b);
    out.append(c);
    out
}

/// A copy of a list of texts.
pub fn copy_texts(list: &Vec<String>) -> (r: Vec<String>)
    ensures
        r@ == list@,
{
    let mut out: Vec<String> = Vec::new();
    let mut i: usize = 0;
    while i < list.len()
        invariant
            i <= list.len(),
            out@ == list@.take(i as int),
        decreases list.len() - i,
    {
        out.push(list[i].clone());
        i += 1;
        assert(list@.take(i as int) == list@.take(i - 1).push(list@[i - 1]));
    }
    assert(list@.take(i as int) == list@);
    out
}

/// Whether `wanted` is one of the texts of a list.
pub fn contains_text(list: &Vec<String>, wanted: &str) -> (r: bool)
    ensures
        r == texts(list@).contains(wanted@),
{
    let mut i: usize = 0;
    while i < list.len()
        invariant
            i <= list.len(),
            forall|j: int| 0 <= j < i ==> texts(list@)[j] != wanted@,
        decreases list.len() - i,
    {
        if same_text(list[i].as_str(), wanted) {
            assert(texts(list@)[i as int] == wanted@);
            return true;
        }
        i += 1;
    }
    assert(!texts(list@).contains(wanted@));
    false
}

/// The text of an entry that may be none.
pub open spec fn entry_view(entry: Option<String>) -> Option<Seq<char>> {
    match entry {
        Some(text) => Some(text@),
        None => None,
    }
}

/// The texts of the entries of a list, each of which may be none.
pub open spec fn entries(list: Seq<Option<String>>) -> Seq<Option<Seq<char>>> {
    list.map_values(|entry: Option<String>| entry_view(entry))
}

/// The texts of a list, if every entry is a text.
pub open spec fn all_texts(list: Seq<Option<Seq<char>>>) -> Option<Seq<Seq<char>>> {
    if forall|i: int| 0 <= i < list.len() ==> (#[trigger] list[i]) is Some {
        Some(list.map_values(|entry: Option<Seq<char>>| entry->0))
    } else {
        None
    }
}

/// The texts of a list, if every entry is a text.
pub fn texts_of(list: &Vec<Option<String>>) -> (r: Option<Vec<String>>)
    ensures
        match (r, all_texts(entries(list@))) {
            (Some(found), Some(expected)) => texts(found@) == expected,
            (None, None) => true,
            _ => false,
        },
{
    let ghost all = entries(list@);
    let mut out: Vec<String> = Vec::new();
    let mut i: usize = 0;
    while i < list.len()
        invariant
            i <= list.len(),
            all == entries(list@),
            out@.len() == i,
            forall|j: int| 0 <= j < i ==> #[trigger] all[j] == Some(out@[j]@),
        decreases list.len() - i,
    {
        match &list[i] {
            Some(text) => {
                out.push(text.clone());
            },
            None => {
                assert(all[i as int] is None);
                return None;
            },
        }
        i += 1;
    }
    assert(texts(out@) =~= all.map_values(|entry: Option<Seq<char>>| entry->0));
    Some(out)
}

/// The texts of a list in order, with `separator` between neighbours.
pub open spec fn joined(parts: Seq<Seq<char>>, separator: Seq<char>) -> Seq<char>
    decreases parts.len(),
{
    if parts.len() == 0 {
        Seq::empty()
    } else if parts.len() == 1 {
        parts[0]
    } else {
        joined(parts.drop_last(), separator) + separator + parts.last()
    }
}

/// Joins a list of texts with `separator`.
pub fn join(parts: &Vec<String>, separator: &str) -> (r: String)
    ensures
        r@ == joined(texts(parts@), separator@),
{
    let mut out: String = String::new();
    let ghost all = texts(parts@);
    let mut i: usize = 0;
    while i < parts.len()
        invariant
            i <= parts.len(),
            all == texts(parts@),
            out@ == joined(all.take(i as int), separator@),
        decreases parts.len() - i,
    {
        if i > 0 {
            out.append(separator);
        }
        out.append(parts[i].as_str());
        i += 1;
        assert(all.take(i as int).drop_last() == all.take(i - 1));
        assert(all.take(i as int).last() == parts@[i - 1]@);
        if i == 1 {
            assert(out@ == all.take(1)[0]);
        }
    }
    assert(all.take(i as int) == all);
    out
}

/// What is left of `s` behind `prefix`, if `s` starts with it.
pub open spec fn behind_prefix(s: Seq<char>, prefix: Seq<char>) -> Option<Seq<char>> {
    if prefix.len() <= s.len() && s.take(prefix.len() as int) == prefix {
        Some(s.skip(prefix.len() as int))
    } else {
        None
    }
}

/// What is left of `s` behind `prefix`, if `s` starts with it.
pub fn strip_prefix<'a>(s: &'a str, prefix: &str) -> (r: Option<&'a str>)
    ensures
        match (r, behind_prefix(s@, prefix@)) {
            (Some(rest), Some(expected)) => rest@ == expected,
            (None, None) => true,
            _ => false,
        },
{
    let n: usize = prefix.unicode_len();
    let len: usize = s.unicode_len();
    if n > len {
        return None;
    }
    let head: &'a str = s.substring_char(0, n);
    assert(head@ == s@.take(n as int));
    if same_text(head, prefix) {
        let rest: &'a str = s.substring_char(n, len);
        assert(rest@ == s@.skip(n as int));
        Some(rest)
    } else {
        None
    }
}

/// The digit that stands for a number below sixteen, in lower case.
pub open spec fn hex_digit(n: int) -> char {
    if n < 10 {
        (n + '0' as int) as char
    } else {
        (n - 10 + 'a' as int) as char
    }
}

/// The text of the digit of a number below sixteen.
fn digit(n: usize) -> (r: &'static str)
    requires
        n < 16,
    ensures
        r@ == seq![hex_digit(n as int)],
{
    let table: &'static str = "0123456789abcdef";
    proof {
        reveal_strlit("0123456789abcdef");
    }
    let r: &'static str = table.substring_char(n, n + 1);
    assert(r@ == seq![table@[n as int]]);
    r
}

/// The lower-case hexadecimal form of a number, padded with zeros to `width` digits.
pub open spec fn padded_hex(n: int, width: nat) -> Seq<char>
    decreases width,
{
    if width == 0 {
        Seq::empty()
    } else {
        padded_hex(n / 16, (width - 1) as nat).push(hex_digit(n % 16))
    }
}

/// The decimal form of a number.
pub open spec fn decimal(n: nat) -> Seq<char>
    decreases n,
{
    if n < 10 {
        seq![hex_digit(n as int)]
    } else {
        decimal(n / 10).push(hex_digit((n % 10) as int))
    }
}

/// The decimal form of a number.
pub fn decimal_text(n: u32) -> (r: String)
    ensures
        r@ == decimal(n as nat),
    decreases n,
{
    let last: &'static str = digit((n % 10) as usize);
    if n < 10 {
        last.to_owned()
    } else {
        concat2(decimal_text(n / 10).as_str(), last)
    }
}

/// The sixteen hexadecimal digits of a number, the highest first.
pub fn hex16(n: u64) -> (r: String)
    ensures
        r@ == padded_hex(n as int, 16),
{
    hex_padded(n, 16)
}

fn hex_padded(n: u64, width: usize) -> (r: String)
    ensures
        r@ == padded_hex(n as int, width as nat),
    decreases width,
{
    if width == 0 {
        String::new()
    } else {
        concat2(hex_padded(n / 16, width - 1).as_str(), digit((n % 16) as usize))
    }
}

/// Sixteen to the power of `n`.
pub open spec fn pow16(n: nat) -> int
    decreases n,
{
    if n == 0 {
        1
    } else {
        16 * pow16((n - 1) as nat)
    }
}

/// Whether a text comes before another of the same length, as texts are ordered: at the first place
/// where they differ, its character is the lower one.
pub open spec fn comes_before(a: Seq<char>, b: Seq<char>) -> bool {
    exists|i: int|
        0 <= i < a.len() && i < b.len() && a.take(i) == b.take(i) && (#[trigger] a[i]) < b[i]
}

/// Whether a text holds only lower-case hexadecimal digits.
pub open spec fn is_hex(text: Seq<char>) -> bool {
    forall|i: int|
        0 <= i < text.len() ==> {
            let c = #[trigger] text[i];
            '0' <= c <= '9' || 'a' <= c <= 'f'
        }
}

/// The padded form of a number holds only hexadecimal digits, as many as it is padded to.
pub proof fn padded_hex_is_hex(n: int, width: nat)
    requires
        0 <= n,
    ensures
        is_hex(padded_hex(n, width)),
        padded_hex(n, width).len() == width,
    decreases width,
{
    if width > 0 {
        padded_hex_is_hex(n / 16, (width - 1) as nat);
    }
}

/// Numbers that fit in `width` hexadecimal digits are ordered as their padded forms are.
pub proof fn padded_hex_orders_numbers(a: int, b: int, width: nat)
    requires
        0 <= a < b < pow16(width),
    ensures
        comes_before(padded_hex(a, width), padded_hex(b, width)),
        padded_hex(a, width) != padded_hex(b, width),
    decreases width,
{
    if width > 0 {
        let low = (width - 1) as nat;
        let pa = padded_hex(a, width);
        let pb = padded_hex(b, width);
        let ha = padded_hex(a / 16, low);
        let hb = padded_hex(b / 16, low);
        padded_hex_is_hex(a / 16, low);
        padded_hex_is_hex(b / 16, low);
        if a / 16 < b / 16 {
            padded_hex_orders_numbers(a / 16, b / 16, low);
            let i = choose|i: int|
                0 <= i < ha.len() && i < hb.len() && ha.take(i) == hb.take(i) && (#[trigger] ha[i])
                    < hb[i];
            assert(pa.take(i) == ha.take(i) && pb.take(i) == hb.take(i));
            assert(pa[i] < pb[i]);
        } else {
            assert(pa.take(low as int) == ha && pb.take(low as int) == hb);
            assert(pa[low as int] < pb[low as int]);
        }
    }
}

/// Two numbers that fit in `width` hexadecimal digits have the same padded form only if they are
/// the same number.
pub proof fn padded_hex_tells_numbers_apart(a: int, b: int, width: nat)
    requires
        0 <= a < pow16(width),
        0 <= b < pow16(width),
        padded_hex(a, width) == padded_hex(b, width),
    ensures
        a == b,
    decreases width,
{
    if width > 0 {
        let low = (width - 1) as nat;
        let pa = padded_hex(a, width);
        let pb = padded_hex(b, width);
        assert(pa.drop_last() == padded_hex(a / 16, low));
        assert(pb.drop_last() == padded_hex(b / 16, low));
        assert(pa.last() == hex_digit(a % 16) && pb.last() == hex_digit(b % 16));
        padded_hex_tells_numbers_apart(a / 16, b / 16, low);
    }
}

/// Whether a character has the Unicode property White_Space.
pub open spec fn is_white_space(c: char) -> bool {
    ||| 0x9 <= c as u32 <= 0xd
    ||| c as u32 == 0x20
    ||| c as u32 == 0x85
    ||| c as u32 == 0xa0
    ||| c as u32 == 0x1680
    ||| 0x2000 <= c as u32 <= 0x200a
    ||| c as u32 == 0x2028
    ||| c as u32 == 0x2029
    ||| c as u32 == 0x202f
    ||| c as u32 == 0x205f
    ||| c as u32 == 0x3000
}

/// `s` without the white space at its two ends.
pub open spec fn trimmed(s: Seq<char>) -> Seq<char>
    decreases s.len(),
{
    if s.len() > 0 && is_white_space(s[0]) {
        trimmed(s.skip(1))
    } else if s.len() > 0 && is_white_space(s.last()) {
        trimmed(s.drop_last())
    } else {
        s
    }
}

fn white_space(c: char) -> (r: bool)
    ensures
        r == is_white_space(c),
{
    let n: u32 = c as u32;
    (0x9 <= n && n <= 0xd) || n == 0x20 || n == 0x85 || n == 0xa0 || n == 0x1680
        || (0x2000 <= n && n <= 0x200a) || n == 0x2028 || n == 0x2029 || n == 0x202f || n == 0x205f
        || n == 0x3000
}

/// `s` without the white space at its two ends.
pub fn trim(s: &str) -> (r: &str)
    ensures
        r@ == trimmed(s@),
{
    let mut from: usize = 0;
    let mut to: usize = s.unicode_len();
    assert(s@.subrange(0, to as int) == s@);
    while from < to && white_space(s.get_char(from))
        invariant
            from <= to,
            to == s@.len(),
            trimmed(s@) == trimmed(s@.subrange(from as int, to as int)),
        decreases to - from,
    {
        assert(s@.subrange(from as int, to as int).skip(1) == s@.subrange(from + 1, to as int));
        from += 1;
    }
    while from < to && white_space(s.get_char(to - 1))
        invariant
            from <= to <= s@.len(),
            from < to ==> !is_white_space(s@[from as int]),
            trimmed(s@) == trimmed(s@.subrange(from as int, to as int)),
        decreases to - from,
    {
        assert(s@.subrange(from as int, to as int).drop_last() == s@.subrange(
            from as int,
            to - 1,
        ));
        to -= 1;
    }
    s.substring_char(from, to)
}

/// The number that a digit stands for.
pub open spec fn digit_of(c: char) -> int {
    if '0' <= c <= '9' {
        c as int - '0' as int
    } else {
        c as int - 'a' as int + 10
    }
}

/// The number that a text of digits stands for.
pub open spec fn value_of(text: Seq<char>, base: int) -> int
    decreases text.len(),
{
    if text.len() == 0 {
        0
    } else {
        base * value_of(text.drop_last(), base) + digit_of(text.last())
    }
}

/// The padded form of a number that fits stands for that number.
pub proof fn padded_hex_has_the_value(n: int, width: nat)
    requires
        0 <= n < pow16(width),
    ensures
        value_of(padded_hex(n, width), 16) == n,
    decreases width,
{
    if width > 0 {
        let low = (width - 1) as nat;
        padded_hex_has_the_value(n / 16, low);
        assert(padded_hex(n, width).drop_last() =~= padded_hex(n / 16, low));
        assert(digit_of(hex_digit(n % 16)) == n % 16);
    }
}

/// The decimal form of a number holds decimal digits, without a zero in front, and stands for it.
pub proof fn decimal_has_the_value(n: nat)
    ensures
        decimal(n).len() > 0,
        value_of(decimal(n), 10) == n,
        forall|i: int| 0 <= i < decimal(n).len() ==> '0' <= #[trigger] decimal(n)[i] <= '9',
        n > 0 ==> decimal(n)[0] != '0',
    decreases n,
{
    if n < 10 {
        assert(decimal(n).drop_last() =~= Seq::<char>::empty());
        assert(value_of(decimal(n).drop_last(), 10) == 0);
    } else {
        decimal_has_the_value(n / 10);
        assert(decimal(n).drop_last() =~= decimal(n / 10));
    }
}

/// The texts that numbers are written in stand for the numbers: sixteen hexadecimal digits, and as many
/// decimal ones as it takes.
pub proof fn numbers_are_written_in_digits(n: u64, m: u32, hex: String, dec: String)
    requires
        call_ensures(hex16, (n,), hex),
        call_ensures(decimal_text, (m,), dec),
    ensures
        hex@.len() == 16 && is_hex(hex@) && value_of(hex@, 16) == n,
        value_of(dec@, 10) == m,
        m > 0 ==> dec@[0] != '0',
{
    reveal_with_fuel(pow16, 17);
    padded_hex_is_hex(n as int, 16);
    padded_hex_has_the_value(n as int, 16);
    decimal_has_the_value(m as nat);
}

/// Texts that are put together stand behind one another, and two texts are the same exactly if they hold
/// the same characters.
pub proof fn texts_are_put_together(
    a: &str,
    b: &str,
    c: &str,
    two: String,
    three: String,
    same: bool,
)
    requires
        call_ensures(concat2, (a, b), two),
        call_ensures(concat3, (a, b, c), three),
        call_ensures(same_text, (a, b), same),
    ensures
        two@ == a@ + b@,
        three@ == two@ + c@,
        same <==> a@.len() == b@.len() && forall|i: int| 0 <= i < a@.len() ==> a@[i] == b@[i],
{
    if a@.len() == b@.len() && forall|i: int| 0 <= i < a@.len() ==> a@[i] == b@[i] {
        assert(a@ =~= b@);
    }
}

/// A text is in a list exactly if it is one of its entries, and a copy of a list holds the same entries.
pub proof fn lists_hold_their_entries(
    list: &Vec<String>,
    wanted: &str,
    found: bool,
    copy: Vec<String>,
)
    requires
        call_ensures(contains_text, (list, wanted), found),
        call_ensures(copy_texts, (list,), copy),
    ensures
        found <==> exists|i: int| 0 <= i < list@.len() && (#[trigger] list@[i])@ == wanted@,
        copy@ == list@,
{
    if found {
        let i = choose|i: int| 0 <= i < texts(list@).len() && texts(list@)[i] == wanted@;
        assert(list@[i]@ == wanted@);
    }
    if exists|i: int| 0 <= i < list@.len() && (#[trigger] list@[i])@ == wanted@ {
        let i = choose|i: int| 0 <= i < list@.len() && (#[trigger] list@[i])@ == wanted@;
        assert(texts(list@)[i] == wanted@);
    }
}

/// A list whose entries are all texts gives those texts, in their order; any other list gives none.
pub proof fn only_lists_of_texts_are_taken(list: &Vec<Option<String>>, r: Option<Vec<String>>)
    requires
        call_ensures(texts_of, (list,), r),
    ensures
        r is Some <==> forall|i: int| 0 <= i < list@.len() ==> (#[trigger] list@[i]) is Some,
        r matches Some(found) ==> found@.len() == list@.len() && forall|i: int|
            0 <= i < list@.len() ==> (#[trigger] found@[i])@ == list@[i]->0@,
{
    let all = entries(list@);
    if forall|i: int| 0 <= i < list@.len() ==> (#[trigger] list@[i]) is Some {
        assert forall|i: int| 0 <= i < all.len() implies (#[trigger] all[i]) is Some by {
            assert(list@[i] is Some);
        }
    }
    if let Some(found) = r {
        assert(texts(found@).len() == list@.len());
        assert forall|i: int| 0 <= i < list@.len() implies (#[trigger] found@[i])@ == list@[i]->0@
            && list@[i] is Some by {
            assert(all[i] is Some);
            assert(texts(found@)[i] == all[i]->0);
        }
        assert forall|i: int| 0 <= i < list@.len() implies (#[trigger] list@[i]) is Some by {
            assert(all[i] is Some);
        }
    }
}

/// Joining leaves nothing out and adds only the separators: none for a list of one, and one before every
/// further text.
pub proof fn joining_puts_separators_between(
    front: &Vec<String>,
    whole: &Vec<String>,
    separator: &str,
    joined_front: String,
    joined_whole: String,
)
    requires
        call_ensures(join, (front, separator), joined_front),
        call_ensures(join, (whole, separator), joined_whole),
        whole@.len() > 0,
        front@ == whole@.drop_last(),
    ensures
        front@.len() == 0 ==> joined_front@.len() == 0 && joined_whole@ == whole@[0]@,
        front@.len() > 0 ==> joined_whole@ == joined_front@ + separator@ + whole@.last()@,
{
    assert(texts(whole@).drop_last() =~= texts(front@));
}

/// What is left behind a prefix makes the text together with the prefix; nothing is left exactly if the
/// text does not start with it.
pub proof fn prefixes_are_taken_off(s: &str, prefix: &str, r: Option<&str>)
    requires
        call_ensures(strip_prefix, (s, prefix), r),
    ensures
        r matches Some(rest) ==> s@ == prefix@ + rest@,
        r is None ==> forall|rest: Seq<char>| s@ != #[trigger] (prefix@ + rest),
{
    if let Some(rest) = r {
        assert(s@ =~= s@.take(prefix@.len() as int) + s@.skip(prefix@.len() as int));
    } else {
        assert forall|rest: Seq<char>| s@ != #[trigger] (prefix@ + rest) by {
            if s@ == prefix@ + rest {
                assert(s@.take(prefix@.len() as int) =~= prefix@);
            }
        }
    }
}

/// What is white space among the ASCII characters: the blank, and the five from the tab to the carriage
/// return.
pub proof fn ascii_white_space(c: char)
    requires
        (c as u32) < 0x80,
    ensures
        is_white_space(c) <==> c == ' ' || '\t' <= c <= '\r',
{
}

/// What is left of a text without the white space at its ends.
pub proof fn trimmed_parts(s: Seq<char>) -> (ends: (int, int))
    ensures
        0 <= ends.0 <= ends.1 <= s.len(),
        trimmed(s) == s.subrange(ends.0, ends.1),
        forall|k: int|
            0 <= k < ends.0 || ends.1 <= k < s.len() ==> is_white_space(#[trigger] s[k]),
        ends.0 < ends.1 ==> !is_white_space(s[ends.0]) && !is_white_space(s[ends.1 - 1]),
    decreases s.len(),
{
    if s.len() > 0 && is_white_space(s[0]) {
        let inner = trimmed_parts(s.skip(1));
        assert(s.skip(1).subrange(inner.0, inner.1) =~= s.subrange(inner.0 + 1, inner.1 + 1));
        assert forall|k: int|
            0 <= k < inner.0 + 1 || inner.1 + 1 <= k < s.len() implies is_white_space(
            #[trigger] s[k],
        ) by {
            if k > 0 {
                assert(s.skip(1)[k - 1] == s[k]);
            }
        }
        (inner.0 + 1, inner.1 + 1)
    } else if s.len() > 0 && is_white_space(s.last()) {
        let inner = trimmed_parts(s.drop_last());
        assert(s.drop_last().subrange(inner.0, inner.1) =~= s.subrange(inner.0, inner.1));
        assert forall|k: int| 0 <= k < inner.0 || inner.1 <= k < s.len() implies is_white_space(
            #[trigger] s[k],
        ) by {
            if k < s.len() - 1 {
                assert(s.drop_last()[k] == s[k]);
            }
        }
        inner
    } else {
        assert(s.subrange(0, s.len() as int) =~= s);
        (0, s.len() as int)
    }
}

/// Trimming takes off white space at the two ends, all of it and nothing else.
pub proof fn trimming_takes_off_white_space(s: &str, r: &str)
    requires
        call_ensures(trim, (s,), r),
    ensures
        exists|from: int, to: int|
            {
                &&& 0 <= from <= to <= s@.len()
                &&& r@ == #[trigger] s@.subrange(from, to)
                &&& forall|k: int|
                    0 <= k < from || to <= k < s@.len() ==> is_white_space(#[trigger] s@[k])
            },
        r@.len() > 0 ==> !is_white_space(r@[0]) && !is_white_space(r@.last()),
{
    let ends = trimmed_parts(s@);
    assert(r@ == s@.subrange(ends.0, ends.1));
}

/// What is white space among all characters: the 25 that have the Unicode property.
pub proof fn white_space_is_the_unicode_property(c: char)
    ensures
        is_white_space(c) <==> seq![
            '\u{9}', '\u{a}', '\u{b}', '\u{c}', '\u{d}', '\u{20}', '\u{85}', '\u{a0}', '\u{1680}',
            '\u{2000}', '\u{2001}', '\u{2002}', '\u{2003}', '\u{2004}', '\u{2005}', '\u{2006}',
            '\u{2007}', '\u{2008}', '\u{2009}', '\u{200a}', '\u{2028}', '\u{2029}', '\u{202f}',
            '\u{205f}', '\u{3000}',
        ].contains(c),
{
    let all = seq![
        '\u{9}', '\u{a}', '\u{b}', '\u{c}', '\u{d}', '\u{20}', '\u{85}', '\u{a0}', '\u{1680}',
        '\u{2000}', '\u{2001}', '\u{2002}', '\u{2003}', '\u{2004}', '\u{2005}', '\u{2006}',
        '\u{2007}', '\u{2008}', '\u{2009}', '\u{200a}', '\u{2028}', '\u{2029}', '\u{202f}',
        '\u{205f}', '\u{3000}',
    ];
    if is_white_space(c) {
        let n = c as int;
        let i: int = if n <= 0xd {
            n - 9
        } else if n == 0x20 {
            5
        } else if n == 0x85 {
            6
        } else if n == 0xa0 {
            7
        } else if n == 0x1680 {
            8
        } else if n <= 0x200a {
            n - 0x2000 + 9
        } else if n == 0x2028 {
            20
        } else if n == 0x2029 {
            21
        } else if n == 0x202f {
            22
        } else if n == 0x205f {
            23
        } else {
            24
        };
        assert(all[i] == c);
    }
}

} // verus!
