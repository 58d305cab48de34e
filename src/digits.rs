use vstd::prelude::*;

verus! {

/// The character of one decimal digit.
pub open spec fn digit_char(d: nat) -> char {
    if d == 0 { '0' }
    else if d == 1 { '1' }
    else if d == 2 { '2' }
    else if d == 3 { '3' }
    else if d == 4 { '4' }
    else if d == 5 { '5' }
    else if d == 6 { '6' }
    else if d == 7 { '7' }
    else if d == 8 { '8' }
    else { '9' }
}

pub open spec fn is_digit(c: char) -> bool {
    '0' <= c && c <= '9'
}

/// `n` in decimal, without leading zeros ("0" for zero).
pub open spec fn decimal(n: nat) -> Seq<char>
    decreases n,
{
    if n < 10 {
        seq![digit_char(n)]
    } else {
        decimal(n / 10).push(digit_char(n % 10))
    }
}

/// The last `w` decimal digits of `n`, zero-padded on the left.
pub open spec fn fixed_width(n: nat, w: nat) -> Seq<char>
    decreases w,
{
    if w == 0 {
        seq![]
    } else {
        fixed_width(n / 10, (w - 1) as nat).push(digit_char(n % 10))
    }
}

/// An integer in decimal, with a leading `-` when it is negative.
pub open spec fn signed_text(i: int) -> Seq<char> {
    if i < 0 {
        seq!['-'] + decimal((-i) as nat)
    } else {
        decimal(i as nat)
    }
}

pub proof fn lemma_decimal_digits(n: nat)
    ensures
        decimal(n).len() >= 1,
        forall|k: int| 0 <= k < decimal(n).len() ==> is_digit(#[trigger] decimal(n)[k]),
    decreases n,
{
    if n >= 10 {
        lemma_decimal_digits(n / 10);
    }
}

pub proof fn lemma_fixed_width_digits(n: nat, w: nat)
    ensures
        fixed_width(n, w).len() == w,
        forall|k: int| 0 <= k < w ==> is_digit(#[trigger] fixed_width(n, w)[k]),
    decreases w,
{
    if w > 0 {
        lemma_fixed_width_digits(n / 10, (w - 1) as nat);
    }
}

/// Below `10^w`, the `w`-digit rendering tells numbers apart.
pub proof fn lemma_fixed_width_injective(n: nat, m: nat, w: nat)
    requires
        n < pow10(w),
        m < pow10(w),
        fixed_width(n, w) == fixed_width(m, w),
    ensures
        n == m,
    decreases w,
{
    if w > 0 {
        let a = fixed_width(n, w);
        let b = fixed_width(m, w);
        assert(a.last() == digit_char(n % 10));
        assert(b.last() == digit_char(m % 10));
        assert(a.drop_last() =~= fixed_width(n / 10, (w - 1) as nat));
        assert(b.drop_last() =~= fixed_width(m / 10, (w - 1) as nat));
        assert(n % 10 == m % 10);
        assert(pow10(w) == 10 * pow10((w - 1) as nat));
        lemma_fixed_width_injective(n / 10, m / 10, (w - 1) as nat);
    }
}

pub open spec fn pow10(w: nat) -> nat
    decreases w,
{
    if w == 0 { 1 } else { 10 * pow10((w - 1) as nat) }
}

fn digit_str(d: u64) -> (r: &'static str)
    requires
        d < 10,
    ensures
        r@ == seq![digit_char(d as nat)],
{
    proof {
        reveal_strlit("0");
        reveal_strlit("1");
        reveal_strlit("2");
        reveal_strlit("3");
        reveal_strlit("4");
        reveal_strlit("5");
        reveal_strlit("6");
        reveal_strlit("7");
        reveal_strlit("8");
        reveal_strlit("9");
    }
    let r = if d == 0 { "0" }
    else if d == 1 { "1" }
    else if d == 2 { "2" }
    else if d == 3 { "3" }
    else if d == 4 { "4" }
    else if d == 5 { "5" }
    else if d == 6 { "6" }
    else if d == 7 { "7" }
    else if d == 8 { "8" }
    else { "9" };
    assert(r@ =~= seq![digit_char(d as nat)]);
    r
}

/// Renders `n` in decimal.
pub fn decimal_string(n: u64) -> (r: String)
    ensures
        r@ == decimal(n as nat),
    decreases n,
{
    if n < 10 {
        String::from_str(digit_str(n))
    } else {
        let mut s = decimal_string(n / 10);
        s.append(digit_str(n % 10));
        assert(s@ =~= decimal(n as nat));
        s
    }
}

/// Renders the last `w` digits of `n`, zero-padded to width `w`.
pub fn fixed_digits(n: u64, w: usize) -> (r: String)
    ensures
        r@ == fixed_width(n as nat, w as nat),
    decreases w,
{
    if w == 0 {
        let r = String::new();
        assert(r@ =~= fixed_width(n as nat, 0));
        r
    } else {
        let mut s = fixed_digits(n / 10, w - 1);
        s.append(digit_str(n % 10));
        assert(s@ =~= fixed_width(n as nat, w as nat));
        s
    }
}

/// Renders a signed integer in decimal.
pub fn signed_string(i: i64) -> (r: String)
    ensures
        r@ == signed_text(i as int),
{
    if i < 0 {
        let m: u64 = if i == i64::MIN { 9223372036854775808u64 } else { (-i) as u64 };
        let d = decimal_string(m);
        proof { reveal_strlit("-"); }
        let r = String::from_str("-").concat(d.as_str());
        assert(r@ =~= signed_text(i as int));
        r
    } else {
        decimal_string(i as u64)
    }
}

} // verus!
