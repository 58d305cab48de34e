use vstd::prelude::*;
use crate::digits::{decimal, decimal_string, fixed_digits, fixed_width, is_digit, lemma_decimal_digits, lemma_fixed_width_digits};
use crate::model::{Candle, Price};

verus! {

/// A price with exactly three decimals: `-`? integer part `.` three digits.
pub open spec fn price_text(p: Price) -> Seq<char> {
    (if p.negative { seq!['-'] } else { seq![] })
        + decimal((p.thousandths / 1000) as nat)
        + seq!['.']
        + fixed_width((p.thousandths % 1000) as nat, 3)
}

/// One candle as `(time, open, high, low, close)`.
pub open spec fn candle_line(c: Candle) -> Seq<char> {
    seq!['('] + c.time@ + seq![',', ' '] + price_text(c.open) + seq![',', ' '] + price_text(c.high)
        + seq![',', ' '] + price_text(c.low) + seq![',', ' '] + price_text(c.close) + seq![')']
}

/// The lines of a series joined by single newlines; empty for no candles.
pub open spec fn series_text(cs: Seq<Candle>) -> Seq<char>
    decreases cs.len(),
{
    if cs.len() == 0 {
        seq![]
    } else if cs.len() == 1 {
        candle_line(cs[0])
    } else {
        series_text(cs.drop_last()) + seq!['\n'] + candle_line(cs.last())
    }
}

pub open spec fn newline_count(s: Seq<char>) -> nat
    decreases s.len(),
{
    if s.len() == 0 {
        0
    } else {
        newline_count(s.drop_last()) + if s.last() == '\n' { 1nat } else { 0nat }
    }
}

pub open spec fn has_no_newline(s: Seq<char>) -> bool {
    forall|k: int| 0 <= k < s.len() ==> s[k] != '\n'
}

/// Renders one price with three decimals.
pub fn price_string(p: Price) -> (r: String)
    ensures
        r@ == price_text(p),
{
    proof {
        reveal_strlit("-");
        reveal_strlit(".");
    }
    let mut s = if p.negative { String::from_str("-") } else { String::new() };
    let int_part = decimal_string(p.thousandths / 1000);
    s.append(int_part.as_str());
    s.append(".");
    let frac = fixed_digits(p.thousandths % 1000, 3);
    s.append(frac.as_str());
    assert(s@ =~= price_text(p));
    s
}

/// Renders one candle as `(time, open, high, low, close)`.
pub fn format_candle(c: &Candle) -> (r: String)
    ensures
        r@ == candle_line(*c),
{
    proof {
        reveal_strlit("(");
        reveal_strlit(", ");
        reveal_strlit(")");
    }
    let mut s = String::from_str("(");
    s.append(c.time.as_str());
    s.append(", ");
    let open = price_string(c.open);
    s.append(open.as_str());
    s.append(", ");
    let high = price_string(c.high);
    s.append(high.as_str());
    s.append(", ");
    let low = price_string(c.low);
    s.append(low.as_str());
    s.append(", ");
    let close = price_string(c.close);
    s.append(close.as_str());
    s.append(")");
    assert(s@ =~= candle_line(*c));
    s
}

/// Renders a series one candle per line, in the order given.
pub fn format_candles(cs: &Vec<Candle>) -> (r: String)
    ensures
        r@ == series_text(cs@),
{
    let mut s = String::new();
    let mut i: usize = 0;
    assert(cs@.subrange(0, 0) =~= Seq::<Candle>::empty());
    while i < cs.len()
        invariant
            i <= cs@.len(),
            s@ == series_text(cs@.subrange(0, i as int)),
        decreases cs@.len() - i,
    {
        let line = format_candle(&cs[i]);
        let ghost prev = cs@.subrange(0, i as int);
        let ghost next = cs@.subrange(0, i + 1);
        assert(next.drop_last() =~= prev);
        assert(next.last() == cs@[i as int]);
        assert(next[0] == cs@[0]);
        let ghost before = s@;
        if i > 0 {
            proof { reveal_strlit("\n"); }
            s.append("\n");
            s.append(line.as_str());
            assert(series_text(next) == series_text(prev) + seq!['\n'] + candle_line(cs@[i as int]));
            assert(s@ =~= before + seq!['\n'] + line@);
        } else {
            s.append(line.as_str());
            assert(prev.len() == 0);
            assert(before =~= Seq::<char>::empty());
            assert(series_text(next) == candle_line(cs@[0]));
            assert(s@ =~= line@);
        }
        assert(s@ =~= series_text(next));
        i = i + 1;
    }
    assert(cs@.subrange(0, cs@.len() as int) =~= cs@);
    s
}

proof fn lemma_newline_count_add(a: Seq<char>, b: Seq<char>)
    ensures
        newline_count(a + b) == newline_count(a) + newline_count(b),
    decreases b.len(),
{
    if b.len() == 0 {
        assert(a + b =~= a);
    } else {
        assert((a + b).drop_last() =~= a + b.drop_last());
        lemma_newline_count_add(a, b.drop_last());
    }
}

proof fn lemma_newline_count_none(s: Seq<char>)
    requires
        has_no_newline(s),
    ensures
        newline_count(s) == 0,
    decreases s.len(),
{
    if s.len() > 0 {
        lemma_newline_count_none(s.drop_last());
    }
}

/// A price's text is an optional `-`, at least one integer digit, a `.`, and
/// exactly three decimal digits; it holds no newline.
pub proof fn lemma_price_text_shape(p: Price)
    ensures
        price_text(p).len() >= 5,
        price_text(p)[price_text(p).len() - 4] == '.',
        forall|k: int| price_text(p).len() - 3 <= k < price_text(p).len()
            ==> is_digit(#[trigger] price_text(p)[k]),
        has_no_newline(price_text(p)),
{
    lemma_decimal_digits((p.thousandths / 1000) as nat);
    lemma_fixed_width_digits((p.thousandths % 1000) as nat, 3);
    let sign: Seq<char> = if p.negative { seq!['-'] } else { seq![] };
    let int_part = decimal((p.thousandths / 1000) as nat);
    let frac = fixed_width((p.thousandths % 1000) as nat, 3);
    let t = price_text(p);
    assert(t =~= sign + int_part + seq!['.'] + frac);
    assert forall|k: int| t.len() - 3 <= k < t.len() implies is_digit(#[trigger] t[k]) by {
        assert(t[k] == frac[k - (t.len() - 3)]);
    }
    assert forall|k: int| 0 <= k < t.len() implies t[k] != '\n' by {
        if k < sign.len() {
        } else if k < sign.len() + int_part.len() {
            assert(is_digit(int_part[k - sign.len()]));
        } else if k == sign.len() + int_part.len() {
        } else {
            assert(is_digit(frac[k - sign.len() - int_part.len() - 1]));
        }
    }
}

proof fn lemma_candle_line_no_newline(c: Candle)
    requires
        has_no_newline(c.time@),
    ensures
        newline_count(candle_line(c)) == 0,
{
    lemma_price_text_shape(c.open);
    lemma_price_text_shape(c.high);
    lemma_price_text_shape(c.low);
    lemma_price_text_shape(c.close);
    let sep = seq![',', ' '];
    lemma_newline_count_none(seq!['(']);
    lemma_newline_count_none(c.time@);
    lemma_newline_count_none(sep);
    lemma_newline_count_none(price_text(c.open));
    lemma_newline_count_none(price_text(c.high));
    lemma_newline_count_none(price_text(c.low));
    lemma_newline_count_none(price_text(c.close));
    lemma_newline_count_none(seq![')']);
    let a1 = seq!['('] + c.time@;
    lemma_newline_count_add(seq!['('], c.time@);
    let a2 = a1 + sep;
    lemma_newline_count_add(a1, sep);
    let a3 = a2 + price_text(c.open);
    lemma_newline_count_add(a2, price_text(c.open));
    let a4 = a3 + sep;
    lemma_newline_count_add(a3, sep);
    let a5 = a4 + price_text(c.high);
    lemma_newline_count_add(a4, price_text(c.high));
    let a6 = a5 + sep;
    lemma_newline_count_add(a5, sep);
    let a7 = a6 + price_text(c.low);
    lemma_newline_count_add(a6, price_text(c.low));
    let a8 = a7 + sep;
    lemma_newline_count_add(a7, sep);
    let a9 = a8 + price_text(c.close);
    lemma_newline_count_add(a8, price_text(c.close));
    lemma_newline_count_add(a9, seq![')']);
}

/// A series of N candles whose time labels hold no newline renders as the
/// empty text when N is 0, and otherwise as N lines: N - 1 newlines, the last
/// line being the last candle's `(time, open, high, low, close)`.
pub proof fn lemma_series_lines(cs: Seq<Candle>)
    requires
        forall|i: int| 0 <= i < cs.len() ==> has_no_newline(#[trigger] cs[i].time@),
    ensures
        cs.len() == 0 <==> series_text(cs).len() == 0,
        cs.len() > 0 ==> newline_count(series_text(cs)) == cs.len() - 1,
    decreases cs.len(),
{
    if cs.len() == 1 {
        lemma_candle_line_no_newline(cs[0]);
        lemma_price_text_shape(cs[0].open);
    } else if cs.len() > 1 {
        let init = cs.drop_last();
        assert forall|i: int| 0 <= i < init.len() implies has_no_newline(#[trigger] init[i].time@) by {
            assert(init[i] == cs[i]);
        }
        lemma_series_lines(init);
        lemma_candle_line_no_newline(cs.last());
        lemma_newline_count_add(series_text(init), seq!['\n']);
        lemma_newline_count_add(series_text(init) + seq!['\n'], candle_line(cs.last()));
        assert(newline_count(seq!['\n']) == 1) by {
            assert(seq!['\n'].drop_last() =~= Seq::<char>::empty());
            reveal_with_fuel(newline_count, 2);
        }
    }
}

} // verus!
