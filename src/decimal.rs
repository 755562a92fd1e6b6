use vstd::prelude::*;

verus! {

/// The character for a digit value below ten.
pub open spec fn digit_char(d: nat) -> char {
    seq!['0', '1', '2', '3', '4', '5', '6', '7', '8', '9'][d as int]
}

pub open spec fn is_decimal_digit(c: char) -> bool {
    '0' <= c && c <= '9'
}

pub open spec fn all_decimal_digits(s: Seq<char>) -> bool {
    forall|i: int| 0 <= i < s.len() ==> is_decimal_digit(#[trigger] s[i])
}

/// The value of a string of decimal digits, most significant first.
pub open spec fn digits_value(s: Seq<char>) -> nat
    decreases s.len(),
{
    if s.len() == 0 {
        0
    } else {
        digits_value(s.drop_last()) * 10 + ((s.last() as u32 - '0' as u32) as nat)
    }
}

/// The shortest decimal text of `n`: no sign, no leading zero.
pub open spec fn decimal_text(n: nat) -> Seq<char>
    decreases n,
{
    if n < 10 {
        seq![digit_char(n)]
    } else {
        decimal_text(n / 10).push(digit_char(n % 10))
    }
}

/// A digit string as a number reader of this library accepts it: at least one
/// digit, no leading zero unless the zero stands alone.
pub open spec fn canonical_digits(s: Seq<char>) -> bool {
    &&& s.len() > 0
    &&& all_decimal_digits(s)
    &&& (s.len() > 1 ==> s[0] != '0')
}

pub proof fn lemma_decimal_text_shape(n: nat)
    ensures
        canonical_digits(decimal_text(n)),
        digits_value(decimal_text(n)) == n,
        n > 0 ==> decimal_text(n)[0] != '0',
    decreases n,
{
    lemma_digit_char(n % 10);
    let t = decimal_text(n);
    if n < 10 {
        lemma_digit_char(n);
        assert(t.drop_last() =~= Seq::<char>::empty());
        assert(t.last() == digit_char(n));
        assert(digits_value(t) == digits_value(t.drop_last()) * 10 + ((t.last() as u32 - '0' as u32) as nat));
        assert(digits_value(t.drop_last()) == 0);
        assert(is_decimal_digit(t[0]));
    } else {
        lemma_decimal_text_shape(n / 10);
        let p = decimal_text(n / 10);
        assert(t == p.push(digit_char(n % 10)));
        assert(t.drop_last() =~= p);
        assert(t.last() == digit_char(n % 10));
        assert(t[0] == p[0]);
        assert forall|i: int| 0 <= i < t.len() implies is_decimal_digit(#[trigger] t[i]) by {
            if i < p.len() {
                assert(t[i] == p[i]);
            }
        }
        assert(digits_value(t) == digits_value(p) * 10 + ((t.last() as u32 - '0' as u32) as nat));
        assert(n == (n / 10) * 10 + n % 10) by (nonlinear_arith);
        assert(n / 10 > 0);
        assert(p[0] != '0');
    }
}

proof fn lemma_digit_char(d: nat)
    requires
        d < 10,
    ensures
        is_decimal_digit(digit_char(d)),
        (digit_char(d) as u32 - '0' as u32) as nat == d,
        digit_char(d) == '0' <==> d == 0,
{
    let ds = seq!['0', '1', '2', '3', '4', '5', '6', '7', '8', '9'];
    assert(ds[0] == '0' && ds[1] == '1' && ds[2] == '2' && ds[3] == '3' && ds[4] == '4');
    assert(ds[5] == '5' && ds[6] == '6' && ds[7] == '7' && ds[8] == '8' && ds[9] == '9');
}

fn digit_to_char(d: u32) -> (c: char)
    requires
        d < 10,
    ensures
        c == digit_char(d as nat),
        is_decimal_digit(c),
{
    proof {
        lemma_digit_char(d as nat);
    }
    if d == 0 { '0' }
    else if d == 1 { '1' }
    else if d == 2 { '2' }
    else if d == 3 { '3' }
    else if d == 4 { '4' }
    else if d == 5 { '5' }
    else if d == 6 { '6' }
    else if d == 7 { '7' }
    else if d == 8 { '8' }
    else { '9' }
}

/// Appends the decimal text of `n` to `out`.
pub fn render_decimal(n: u32, out: &mut Vec<char>)
    ensures
        final(out)@ == old(out)@ + decimal_text(n as nat),
    decreases n,
{
    if n >= 10 {
        render_decimal(n / 10, out);
    }
    let c = digit_to_char(n % 10);
    out.push(c);
    proof {
        if n >= 10 {
            assert(decimal_text(n as nat) == decimal_text((n / 10) as nat).push(digit_char((n % 10) as nat)));
        } else {
            assert(decimal_text(n as nat) == seq![digit_char(n as nat)]);
        }
    }
    assert(out@ =~= old(out)@ + decimal_text(n as nat));
}

/// Reads `s[start..end]` as a canonical decimal number that fits in a `u32`.
pub fn parse_decimal(s: &Vec<char>, start: usize, end: usize) -> (r: Option<u32>)
    requires
        start <= end <= s@.len(),
    ensures
        r is Some <==> (canonical_digits(s@.subrange(start as int, end as int))
            && digits_value(s@.subrange(start as int, end as int)) <= u32::MAX),
        r is Some ==> r->0 as nat == digits_value(s@.subrange(start as int, end as int)),
{
    if end - start > 1 && s[start] == '0' {
        return None;
    }
    parse_digits(s, start, end)
}

/// Reads `s[start..end]` as digits, leading zeros allowed, of a number that
/// fits in a `u32`.
pub fn parse_digits(s: &Vec<char>, start: usize, end: usize) -> (r: Option<u32>)
    requires
        start <= end <= s@.len(),
    ensures
        r is Some <==> (s@.subrange(start as int, end as int).len() > 0 && all_decimal_digits(
            s@.subrange(start as int, end as int),
        ) && digits_value(s@.subrange(start as int, end as int)) <= u32::MAX),
        r is Some ==> r->0 as nat == digits_value(s@.subrange(start as int, end as int)),
{
    let ghost t = s@.subrange(start as int, end as int);
    if start == end {
        return None;
    }
    let mut acc: u64 = 0;
    let mut i: usize = start;
    while i < end
        invariant
            start <= i <= end <= s@.len(),
            t == s@.subrange(start as int, end as int),
            all_decimal_digits(s@.subrange(start as int, i as int)),
            acc as nat == digits_value(s@.subrange(start as int, i as int)),
            acc <= u32::MAX,
        decreases end - i,
    {
        let c = s[i];
        if !('0' <= c && c <= '9') {
            assert(t[i - start] == c);
            return None;
        }
        let d = (c as u32 - '0' as u32) as u64;
        let ghost prev = s@.subrange(start as int, i as int);
        let ghost next = s@.subrange(start as int, i + 1);
        assert(next.drop_last() =~= prev);
        assert(next.last() == c);
        assert(digits_value(next) == digits_value(prev) * 10 + d);
        let v = acc * 10 + d;
        if v > 0xffff_ffff {
            proof {
                assert(t.subrange(0, (i + 1 - start) as int) =~= next);
                if all_decimal_digits(t) {
                    lemma_digits_value_monotone(t, (i + 1 - start) as nat);
                }
            }
            return None;
        }
        acc = v;
        i = i + 1;
    }
    assert(s@.subrange(start as int, i as int) =~= t);
    Some(acc as u32)
}

/// A prefix of a digit string is never worth more than the whole.
proof fn lemma_digits_value_monotone(s: Seq<char>, k: nat)
    requires
        k <= s.len(),
        all_decimal_digits(s),
    ensures
        digits_value(s.subrange(0, k as int)) <= digits_value(s),
    decreases s.len() - k,
{
    if k < s.len() {
        lemma_digits_value_monotone(s, k + 1);
        let a = s.subrange(0, k as int);
        let b = s.subrange(0, (k + 1) as int);
        assert(b.drop_last() =~= a);
        assert(is_decimal_digit(s[k as int]));
    } else {
        assert(s.subrange(0, k as int) =~= s);
    }
}

} // verus!
