//! Text handling shared by the rest of the library: cutting a name into
//! delimited fields, and reading and writing decimal numbers.

use vstd::prelude::*;

verus! {

/// The fields of `s` when it is cut at every `delimiter`. Reading from the
/// left, a delimiter closes the current field and opens an empty one; any
/// other character extends the current field. There is always at least one
/// field, and no field holds the delimiter.
pub open spec fn split_fields(s: Seq<char>, delimiter: char) -> Seq<Seq<char>>
    decreases s.len(),
{
    if s.len() == 0 {
        seq![Seq::<char>::empty()]
    } else {
        let before = split_fields(s.drop_last(), delimiter);
        if s.last() == delimiter {
            before.push(Seq::<char>::empty())
        } else {
            before.drop_last().push(before.last().push(s.last()))
        }
    }
}

/// The fields of `fields`, written out with `delimiter` between neighbours.
pub open spec fn join_fields(fields: Seq<Seq<char>>, delimiter: char) -> Seq<char>
    decreases fields.len(),
{
    if fields.len() == 0 {
        Seq::<char>::empty()
    } else if fields.len() == 1 {
        fields[0]
    } else {
        join_fields(fields.drop_last(), delimiter).push(delimiter) + fields.last()
    }
}

/// Cutting never yields an empty list of fields.
pub proof fn lemma_split_nonempty(s: Seq<char>, delimiter: char)
    ensures
        split_fields(s, delimiter).len() >= 1,
    decreases s.len(),
{
    if s.len() > 0 {
        lemma_split_nonempty(s.drop_last(), delimiter);
    }
}

/// No field holds the delimiter, and writing the fields out again with the
/// delimiter between them gives back the text that was cut.
pub proof fn lemma_split_join(s: Seq<char>, delimiter: char)
    ensures
        join_fields(split_fields(s, delimiter), delimiter) == s,
        forall|k: int|
            0 <= k < split_fields(s, delimiter).len() ==> !(#[trigger] split_fields(
                s,
                delimiter,
            )[k]).contains(delimiter),
    decreases s.len(),
{
    let fields = split_fields(s, delimiter);
    if s.len() == 0 {
        assert(join_fields(fields, delimiter) =~= s);
    } else {
        let init = s.drop_last();
        let before = split_fields(init, delimiter);
        lemma_split_nonempty(init, delimiter);
        lemma_split_join(init, delimiter);
        if s.last() == delimiter {
            assert(fields.drop_last() =~= before);
            assert(join_fields(fields, delimiter) =~= s);
            assert forall|k: int| 0 <= k < fields.len() implies !(#[trigger] fields[k]).contains(
                delimiter,
            ) by {
                if k < before.len() {
                    assert(fields[k] == before[k]);
                }
            }
        } else {
            let grown = before.last().push(s.last());
            assert(fields.last() == grown);
            if before.len() == 1 {
                assert(before[0] == init);
                assert(fields[0] =~= s);
            } else {
                assert(fields.drop_last() =~= before.drop_last());
                let head = join_fields(before.drop_last(), delimiter).push(delimiter);
                assert(join_fields(before, delimiter) == head + before.last());
                assert(join_fields(fields, delimiter) == head + grown);
                assert(head + grown =~= (head + before.last()).push(s.last()));
                assert(init.push(s.last()) =~= s);
            }
            assert forall|k: int| 0 <= k < fields.len() implies !(#[trigger] fields[k]).contains(
                delimiter,
            ) by {
                if k < before.len() - 1 {
                    assert(fields[k] == before[k]);
                } else {
                    assert(!before.last().contains(delimiter));
                    assert(fields[k] == grown);
                    if grown.contains(delimiter) {
                        let j = choose|j: int| 0 <= j < grown.len() && grown[j] == delimiter;
                        if j < before.last().len() {
                            assert(before.last()[j] == delimiter);
                        }
                    }
                }
            }
        }
    }
}

/// The characters of `s`, in order.
pub fn chars_of(s: &str) -> (v: Vec<char>)
    ensures
        v@ == s@,
{
    let mut v: Vec<char> = Vec::new();
    for c in it: s.chars()
        invariant
            v@ == it.seq().take(it.index() as int),
            it.seq() == s@,
    {
        v.push(c);
    }
    v
}

/// Cuts `s` at every `delimiter` and returns the fields in order, as
/// `split_fields` defines them.
pub fn split<'a>(s: &'a str, delimiter: char) -> (fields: Vec<&'a str>)
    ensures
        fields@.len() == split_fields(s@, delimiter).len(),
        forall|k: int|
            0 <= k < fields@.len() ==> (#[trigger] fields@[k])@ == split_fields(s@, delimiter)[k],
{
    let chars = chars_of(s);
    let n = chars.len();
    let mut fields: Vec<&'a str> = Vec::new();
    let mut start: usize = 0;
    let mut i: usize = 0;
    while i < n
        invariant
            chars@ == s@,
            n == chars@.len(),
            0 <= start <= i <= n,
            split_fields(s@.take(i as int), delimiter).len() == fields@.len() + 1,
            forall|k: int|
                0 <= k < fields@.len() ==> (#[trigger] fields@[k])@ == split_fields(
                    s@.take(i as int),
                    delimiter,
                )[k],
            split_fields(s@.take(i as int), delimiter).last() == s@.subrange(
                start as int,
                i as int,
            ),
        decreases n - i,
    {
        let ghost before = split_fields(s@.take(i as int), delimiter);
        let ghost prefix = s@.take(i as int + 1);
        proof {
            assert(prefix.drop_last() =~= s@.take(i as int));
            assert(prefix.last() == s@[i as int]);
        }
        if chars[i] == delimiter {
            let field = s.substring_char(start, i);
            fields.push(field);
            start = i + 1;
            proof {
                assert(split_fields(prefix, delimiter) == before.push(Seq::<char>::empty()));
                assert(s@.subrange(start as int, i as int + 1) =~= Seq::<char>::empty());
            }
        } else {
            proof {
                assert(split_fields(prefix, delimiter) == before.drop_last().push(
                    before.last().push(s@[i as int]),
                ));
                assert(s@.subrange(start as int, i as int + 1) =~= s@.subrange(
                    start as int,
                    i as int,
                ).push(s@[i as int]));
            }
        }
        i = i + 1;
    }
    proof {
        assert(s@.take(n as int) =~= s@);
    }
    let field = s.substring_char(start, n);
    fields.push(field);
    fields
}

/// Whether `c` is one of the ten decimal digits.
pub open spec fn is_digit(c: char) -> bool {
    '0' <= c && c <= '9'
}

/// The number that the decimal digit `c` stands for.
pub open spec fn digit_value(c: char) -> nat {
    (c as int - '0' as int) as nat
}

/// Whether every character of `s` is a decimal digit.
pub open spec fn all_digits(s: Seq<char>) -> bool {
    forall|i: int| 0 <= i < s.len() ==> is_digit(#[trigger] s[i])
}

/// The number that the digits of `digits` write in base ten, most
/// significant digit first. The empty text writes zero.
pub open spec fn decimal_value(digits: Seq<char>) -> nat
    decreases digits.len(),
{
    if digits.len() == 0 {
        0
    } else {
        decimal_value(digits.drop_last()) * 10 + digit_value(digits.last())
    }
}

/// The number that `digits` writes, where `digits` is one or more decimal
/// digits and the number is at most `max`.
pub open spec fn magnitude_within(digits: Seq<char>, max: nat) -> Option<nat> {
    if digits.len() > 0 && all_digits(digits) && decimal_value(digits) <= max {
        Some(decimal_value(digits))
    } else {
        None
    }
}

/// The number that `s` writes as an unsigned decimal literal: an optional
/// `+`, then one or more digits, and nothing else. No number above `max` is
/// accepted.
pub open spec fn unsigned_literal(s: Seq<char>, max: nat) -> Option<nat> {
    if s.len() > 0 && s[0] == '+' {
        magnitude_within(s.skip(1), max)
    } else {
        magnitude_within(s, max)
    }
}

/// The number that `s` writes as a signed decimal literal: an optional `+`
/// or `-`, then one or more digits, and nothing else. Only numbers from `min`
/// to `max` are accepted.
pub open spec fn signed_literal(s: Seq<char>, min: int, max: int) -> Option<int>
    recommends
        min <= 0 <= max,
{
    if s.len() > 0 && s[0] == '-' {
        match magnitude_within(s.skip(1), (-min) as nat) {
            Some(m) => Some(-(m as int)),
            None => None,
        }
    } else {
        match unsigned_literal(s, max as nat) {
            Some(m) => Some(m as int),
            None => None,
        }
    }
}

/// A number written with more digits is no smaller than the number that its
/// leading digits write.
pub proof fn lemma_decimal_prefix(digits: Seq<char>, k: int)
    requires
        0 <= k <= digits.len(),
    ensures
        decimal_value(digits.take(k)) <= decimal_value(digits),
    decreases digits.len() - k,
{
    if k == digits.len() {
        assert(digits.take(k) =~= digits);
    } else {
        lemma_decimal_prefix(digits.drop_last(), k);
        assert(digits.drop_last().take(k) =~= digits.take(k));
    }
}

/// Reads the digits of `chars` from `start` to the end as one number, if
/// they are digits, at least one, and the number is at most `max`.
fn parse_magnitude(chars: &Vec<char>, start: usize, max: u64) -> (r: Option<u64>)
    requires
        start <= chars@.len(),
    ensures
        r matches Some(v) ==> magnitude_within(chars@.skip(start as int), max as nat) == Some(
            v as nat,
        ),
        r is None ==> magnitude_within(chars@.skip(start as int), max as nat) is None,
{
    let n = chars.len();
    let ghost digits = chars@.skip(start as int);
    if start == n {
        return None;
    }
    let mut acc: u64 = 0;
    let mut i: usize = start;
    while i < n
        invariant
            start <= i <= n,
            n == chars@.len(),
            digits == chars@.skip(start as int),
            all_digits(digits.take(i - start)),
            acc == decimal_value(digits.take(i - start)),
            acc <= max,
        decreases n - i,
    {
        let c = chars[i];
        let ghost longer = digits.take(i - start + 1);
        proof {
            assert(digits[i - start] == c);
            assert(longer.drop_last() =~= digits.take(i - start));
            assert(longer.last() == c);
        }
        if c < '0' || c > '9' {
            proof {
                assert(!is_digit(digits[i - start]));
            }
            return None;
        }
        let d: u64 = (c as u32 - '0' as u32) as u64;
        assert(d == digit_value(c));
        if acc > max / 10 || (acc == max / 10 && d > max % 10) {
            proof {
                assert(decimal_value(longer) == acc * 10 + d);
                assert(acc * 10 + d > max);
                lemma_decimal_prefix(digits, i - start + 1);
            }
            return None;
        }
        acc = acc * 10 + d;
        proof {
            assert forall|j: int| 0 <= j < longer.len() implies is_digit(#[trigger] longer[j]) by {
                if j < i - start {
                    assert(longer[j] == digits.take(i - start)[j]);
                }
            }
        }
        i = i + 1;
    }
    proof {
        assert(digits.take(n - start) =~= digits);
    }
    Some(acc)
}

/// Reads `s` as an unsigned decimal literal that is at most `max`.
pub fn parse_unsigned(s: &str, max: u64) -> (r: Option<u64>)
    ensures
        r matches Some(v) ==> unsigned_literal(s@, max as nat) == Some(v as nat),
        r is None ==> unsigned_literal(s@, max as nat) is None,
{
    let chars = chars_of(s);
    if chars.len() > 0 && chars[0] == '+' {
        parse_magnitude(&chars, 1, max)
    } else {
        proof {
            assert(chars@.skip(0) =~= chars@);
        }
        parse_magnitude(&chars, 0, max)
    }
}

/// Reads `s` as an unsigned decimal literal that fits 32 bits.
pub fn parse_u32(s: &str) -> (r: Option<u32>)
    ensures
        r matches Some(v) ==> unsigned_literal(s@, u32::MAX as nat) == Some(v as nat),
        r is None ==> unsigned_literal(s@, u32::MAX as nat) is None,
{
    match parse_unsigned(s, 0xffff_ffff) {
        Some(v) => Some(v as u32),
        None => None,
    }
}

/// Reads `s` as a signed decimal literal that fits 32 bits.
pub fn parse_i32(s: &str) -> (r: Option<i32>)
    ensures
        r matches Some(v) ==> signed_literal(s@, i32::MIN as int, i32::MAX as int) == Some(
            v as int,
        ),
        r is None ==> signed_literal(s@, i32::MIN as int, i32::MAX as int) is None,
{
    let chars = chars_of(s);
    if chars.len() > 0 && chars[0] == '-' {
        match parse_magnitude(&chars, 1, 0x8000_0000) {
            Some(m) => {
                if m == 0x8000_0000 {
                    Some(i32::MIN)
                } else {
                    Some(-(m as i32))
                }
            },
            None => None,
        }
    } else if chars.len() > 0 && chars[0] == '+' {
        match parse_magnitude(&chars, 1, 0x7fff_ffff) {
            Some(m) => Some(m as i32),
            None => None,
        }
    } else {
        proof {
            assert(chars@.skip(0) =~= chars@);
        }
        match parse_magnitude(&chars, 0, 0x7fff_ffff) {
            Some(m) => Some(m as i32),
            None => None,
        }
    }
}

/// The character that writes the digit `d`.
pub open spec fn digit_char(d: nat) -> char
    recommends
        d < 10,
{
    if d == 0 {
        '0'
    } else if d == 1 {
        '1'
    } else if d == 2 {
        '2'
    } else if d == 3 {
        '3'
    } else if d == 4 {
        '4'
    } else if d == 5 {
        '5'
    } else if d == 6 {
        '6'
    } else if d == 7 {
        '7'
    } else if d == 8 {
        '8'
    } else {
        '9'
    }
}

/// The decimal digits of `n`, most significant first, without leading
/// zeros; zero is written `0`.
pub open spec fn decimal_digits(n: nat) -> Seq<char>
    decreases n,
{
    if n < 10 {
        seq![digit_char(n)]
    } else {
        decimal_digits(n / 10).push(digit_char(n % 10))
    }
}

/// What `decimal_digits` writes, `decimal_value` reads back.
pub proof fn lemma_decimal_round_trip(n: nat)
    ensures
        decimal_digits(n).len() >= 1,
        all_digits(decimal_digits(n)),
        decimal_value(decimal_digits(n)) == n,
    decreases n,
{
    let text = decimal_digits(n);
    if n < 10 {
        assert(text.drop_last() =~= Seq::<char>::empty());
        assert(decimal_value(text.drop_last()) == 0);
    } else {
        lemma_decimal_round_trip(n / 10);
        let init = decimal_digits(n / 10);
        assert(text.drop_last() =~= init);
        assert forall|i: int| 0 <= i < text.len() implies is_digit(#[trigger] text[i]) by {
            if i < init.len() {
                assert(text[i] == init[i]);
            }
        }
    }
}

/// A number of 32 bits, written in decimal, is an unsigned literal that
/// writes that number.
pub proof fn lemma_written_number_reads_back(n: u32)
    ensures
        unsigned_literal(decimal_digits(n as nat), u32::MAX as nat) == Some(n as nat),
{
    lemma_decimal_round_trip(n as nat);
    let text = decimal_digits(n as nat);
    assert(is_digit(text[0]));
}

/// The one-character text that writes the digit `d`.
fn digit_text(d: u32) -> (t: &'static str)
    requires
        d < 10,
    ensures
        t@ == seq![digit_char(d as nat)],
{
    proof {
        reveal_strlit("0");
        reveal_strlit("1");
        reveal_strlit("2");
        reveal_strlit("3");
        reveal_strlit("4");
        reveal_strlit("5");
        reveal_strlit("6");
        reveal_strlit("7");
        reveal_strlit("8");
        reveal_strlit("9");
    }
    let t = if d == 0 {
        "0"
    } else if d == 1 {
        "1"
    } else if d == 2 {
        "2"
    } else if d == 3 {
        "3"
    } else if d == 4 {
        "4"
    } else if d == 5 {
        "5"
    } else if d == 6 {
        "6"
    } else if d == 7 {
        "7"
    } else if d == 8 {
        "8"
    } else {
        "9"
    };
    assert(t@ =~= seq![digit_char(d as nat)]);
    t
}

/// Appends the decimal digits of `n` to `out`.
pub fn push_decimal(out: &mut String, n: u32)
    ensures
        final(out)@ == old(out)@ + decimal_digits(n as nat),
    decreases n,
{
    if n >= 10 {
        push_decimal(out, n / 10);
    }
    out.append(digit_text(n % 10));
    proof {
        if n >= 10 {
            assert(old(out)@ + decimal_digits((n / 10) as nat) + seq![digit_char((n % 10) as nat)]
                =~= old(out)@ + decimal_digits(n as nat));
        } else {
            assert(old(out)@ + seq![digit_char(n as nat)] =~= old(out)@ + decimal_digits(
                n as nat,
            ));
        }
    }
}

/// Writes `n` in decimal.
pub fn render_u32(n: u32) -> (s: String)
    ensures
        s@ == decimal_digits(n as nat),
{
    let mut s = String::new();
    push_decimal(&mut s, n);
    proof {
        assert(Seq::<char>::empty() + decimal_digits(n as nat) =~= decimal_digits(n as nat));
    }
    s
}

} // verus!
