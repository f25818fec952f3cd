use vstd::prelude::*;

verus! {

/// The byte of an ASCII digit.
pub open spec fn is_digit(b: u8) -> bool {
    48 <= b <= 57
}

/// Every byte of `s` is an ASCII digit.
pub open spec fn all_digits(s: Seq<u8>) -> bool {
    forall|i: int| 0 <= i < s.len() ==> is_digit(#[trigger] s[i])
}

/// The number that a run of ASCII digits spells in base ten.
pub open spec fn digits_value(s: Seq<u8>) -> nat
    decreases s.len(),
{
    if s.len() == 0 {
        0
    } else {
        digits_value(s.drop_last()) * 10 + (s.last() - 48) as nat
    }
}

/// What `u32::from_str` gives for the bytes `s`: one optional leading `+`
/// (not standing alone), then at least one ASCII digit and nothing else, of
/// a value that fits in a `u32`.
pub open spec fn parse_u32_spec(s: Seq<u8>) -> Option<u32> {
    let d = if s.len() > 1 && s[0] == 43 {
        s.drop_first()
    } else {
        s
    };
    if d.len() > 0 && all_digits(d) && digits_value(d) <= u32::MAX {
        Some(digits_value(d) as u32)
    } else {
        None
    }
}

/// The shortest base-ten spelling of `n`, as ASCII bytes.
pub open spec fn decimal_spec(n: nat) -> Seq<u8>
    decreases n,
{
    if n < 10 {
        seq![(48 + n) as u8]
    } else {
        decimal_spec(n / 10).push((48 + n % 10) as u8)
    }
}

/// The spelling of `n` is a non-empty run of digits whose value is `n`.
pub proof fn lemma_decimal_spec(n: nat)
    ensures
        decimal_spec(n).len() > 0,
        all_digits(decimal_spec(n)),
        digits_value(decimal_spec(n)) == n,
        is_digit(decimal_spec(n)[0]),
    decreases n,
{
    let s = decimal_spec(n);
    if n < 10 {
        assert(s.drop_last() =~= Seq::<u8>::empty());
        assert(digits_value(Seq::<u8>::empty()) == 0);
        assert(s.last() == (48 + n) as u8);
        assert(digits_value(s) == digits_value(s.drop_last()) * 10 + (s.last() - 48) as nat);
    } else {
        lemma_decimal_spec(n / 10);
        let prev = decimal_spec(n / 10);
        assert(s.drop_last() =~= prev);
        assert(s.last() == (48 + n % 10) as u8);
        assert(n == (n / 10) * 10 + n % 10);
        assert((s.last() - 48) as nat == n % 10);
        assert(digits_value(s) == digits_value(s.drop_last()) * 10 + (s.last() - 48) as nat);
        assert(s[0] == prev[0]);
        assert forall|i: int| 0 <= i < s.len() implies is_digit(#[trigger] s[i]) by {
            if i < prev.len() {
                assert(s[i] == prev[i]);
            }
        }
    }
}

/// Reading back the spelling of a `u32` gives the same number.
pub proof fn lemma_parse_decimal(n: u32)
    ensures
        parse_u32_spec(decimal_spec(n as nat)) == Some(n),
{
    lemma_decimal_spec(n as nat);
}

/// Appends the spelling of `n` to `out`.
pub fn push_decimal(out: &mut Vec<u8>, n: u32)
    ensures
        final(out)@ == old(out)@ + decimal_spec(n as nat),
    decreases n,
{
    if n >= 10 {
        push_decimal(out, n / 10);
    }
    let digit: u8 = (n % 10) as u8;
    out.push(48 + digit);
    proof {
        if n >= 10 {
            assert(decimal_spec(n as nat) == decimal_spec((n / 10) as nat).push((48 + n % 10) as u8));
        }
    }
    assert(final(out)@ =~= old(out)@ + decimal_spec(n as nat));
}

/// Reads the bytes `bytes[lo..hi]` as `u32::from_str` does.
pub fn parse_u32(bytes: &[u8], lo: usize, hi: usize) -> (r: Option<u32>)
    requires
        lo <= hi <= bytes@.len(),
    ensures
        r == parse_u32_spec(bytes@.subrange(lo as int, hi as int)),
{
    let ghost s = bytes@.subrange(lo as int, hi as int);
    let mut start = lo;
    if hi - lo > 1 && bytes[lo] == 43 {
        start = lo + 1;
    }
    let ghost d = bytes@.subrange(start as int, hi as int);
    assert(d =~= (if s.len() > 1 && s[0] == 43 { s.drop_first() } else { s }));
    let ghost expected = if d.len() > 0 && all_digits(d) && digits_value(d) <= u32::MAX {
        Some(digits_value(d) as u32)
    } else {
        None
    };
    assert(parse_u32_spec(s) == expected);
    if start == hi {
        return None;
    }
    // `acc` is the value read so far, held at u32::MAX + 1 once it is larger.
    let mut acc: u64 = 0;
    let mut i = start;
    while i < hi
        invariant
            start <= i <= hi <= bytes@.len(),
            d == bytes@.subrange(start as int, hi as int),
            d.len() > 0,
            parse_u32_spec(bytes@.subrange(lo as int, hi as int)) == expected,
            expected == if d.len() > 0 && all_digits(d) && digits_value(d) <= u32::MAX {
                Some(digits_value(d) as u32)
            } else {
                None::<u32>
            },
            all_digits(d.subrange(0, i - start)),
            acc as int == if digits_value(d.subrange(0, i - start)) <= u32::MAX {
                digits_value(d.subrange(0, i - start)) as int
            } else {
                u32::MAX + 1
            },
        decreases hi - i,
    {
        let b = bytes[i];
        if !(48 <= b && b <= 57) {
            assert(d[i - start] == b);
            assert(!all_digits(d));
            return None;
        }
        let ghost prev = d.subrange(0, i - start);
        let ghost next = d.subrange(0, i + 1 - start);
        assert(next.drop_last() =~= prev);
        assert(next.last() == b);
        assert forall|k: int| 0 <= k < next.len() implies is_digit(#[trigger] next[k]) by {
            if k < prev.len() {
                assert(next[k] == prev[k]);
            }
        }
        let v = acc * 10 + (b - 48) as u64;
        if v > 0x1_0000_0000 {
            acc = 0x1_0000_0000;
        } else {
            acc = v;
        }
        i = i + 1;
    }
    assert(d.subrange(0, hi - start) =~= d);
    if acc > 0xffff_ffff {
        None
    } else {
        Some(acc as u32)
    }
}

/// The shortest base-ten spelling of `n`, as text.
pub open spec fn decimal_text(n: nat) -> Seq<char>
    decreases n,
{
    if n < 10 {
        seq![digit_char(n)]
    } else {
        decimal_text(n / 10).push(digit_char(n % 10))
    }
}

/// The character of the digit `d` (below ten).
pub open spec fn digit_char(d: nat) -> char {
    if d == 0 {
        '0'
    } else if d == 1 {
        '1'
    } else if d == 2 {
        '2'
    } else if d == 3 {
        '3'
    } else if d == 4 {
        '4'
    } else if d == 5 {
        '5'
    } else if d == 6 {
        '6'
    } else if d == 7 {
        '7'
    } else if d == 8 {
        '8'
    } else {
        '9'
    }
}

/// The text of the digit `d`.
fn digit_str(d: u32) -> (r: &'static str)
    requires
        d < 10,
    ensures
        r@ == seq![digit_char(d as nat)],
{
    proof {
        reveal_strlit("0");
        reveal_strlit("1");
        reveal_strlit("2");
        reveal_strlit("3");
        reveal_strlit("4");
        reveal_strlit("5");
        reveal_strlit("6");
        reveal_strlit("7");
        reveal_strlit("8");
        reveal_strlit("9");
    }
    let r = if d == 0 {
        "0"
    } else if d == 1 {
        "1"
    } else if d == 2 {
        "2"
    } else if d == 3 {
        "3"
    } else if d == 4 {
        "4"
    } else if d == 5 {
        "5"
    } else if d == 6 {
        "6"
    } else if d == 7 {
        "7"
    } else if d == 8 {
        "8"
    } else {
        "9"
    };
    assert(r@ =~= seq![digit_char(d as nat)]);
    r
}

/// Appends the spelling of `n` to the text `out`.
pub fn push_decimal_text(out: &mut String, n: u32)
    ensures
        final(out)@ == old(out)@ + decimal_text(n as nat),
    decreases n,
{
    if n >= 10 {
        push_decimal_text(out, n / 10);
    }
    out.append(digit_str(n % 10));
    assert(final(out)@ =~= old(out)@ + decimal_text(n as nat));
}

} // verus!
