use vstd::prelude::*;
use crate::clock::{format_time, time_text};
use crate::digits::{signed_string, signed_text};
use crate::format::{format_candles, series_text};
use crate::model::{Candle, LocalTime, Mt4Data};

verus! {

/// The directive used when the strategy document cannot be read.
pub const FALLBACK_DIRECTIVE: &'static str = "あなたはFXトレーダーです。データを分析してください。";

/// The fixed column header above every series body.
pub const COLUMNS: &'static str = "(Time, Open, High, Low, Close)\n";

/// One timeframe subsection: title with its period, the column header, the
/// series body (possibly empty) and a blank line.
pub open spec fn section_text(open: Seq<char>, period: i32, close: Seq<char>, cs: Seq<Candle>) -> Seq<char> {
    open + signed_text(period as int) + close + COLUMNS@ + series_text(cs) + "\n\n"@
}

/// Everything before the time line.
pub open spec fn prompt_head(d: Mt4Data) -> Seq<char> {
    "=== メイン分析対象: "@ + d.symbol@ + " ===\n\n現在時刻: "@
}

/// The correlation section. It is always there, so that the prompt keeps one
/// shape: without a correlated symbol its title names the empty string and
/// its subsections have empty bodies.
pub open spec fn secondary_text(d: Mt4Data) -> Seq<char> {
    "=== 相関確認対象: "@ + d.sub_symbol@ + " ===\n(メイン通貨ペアとの同調・乖離を確認してください)\n\n"@
        + section_text("【相関・上位足 ("@, d.sub_symbol_period, "分足)】\n"@, d.sub_candles@)
        + section_text("【相関・下位足 ("@, d.sub_symbol_low_period, "分足)】\n"@, d.sub_low_candles@)
}

/// Everything after the time line: the three primary subsections in fixed
/// order, the correlation section, then the strategy directive verbatim.
pub open spec fn prompt_tail(d: Mt4Data, directive: Seq<char>) -> Seq<char> {
    "\n\n"@
        + section_text("【上位足 ("@, d.period, "分足)】 - 環境認識\n"@, d.candles@)
        + section_text("【中位足 ("@, d.mid_period, "分足)】 - 詳細分析用\n"@, d.mid_candles@)
        + section_text("【下位足 ("@, d.low_period, "分足)】 - エントリータイミング用\n"@, d.low_candles@)
        + secondary_text(d)
        + directive
}

/// The compiled prompt for a snapshot, a clock reading and a directive.
pub open spec fn prompt_text(d: Mt4Data, now: LocalTime, directive: Seq<char>) -> Seq<char> {
    prompt_head(d) + time_text(now) + prompt_tail(d, directive)
}

/// The directive to append, and whether the fallback had to stand in.
pub struct Directive {
    pub text: String,
    pub fallback_used: bool,
}

/// Picks the strategy directive: the document's text when it could be read,
/// otherwise the fixed fallback with the warning flag raised.
pub fn resolve_directive(document: Option<String>) -> (r: Directive)
    ensures
        match document {
            Some(t) => r.text@ == t@ && !r.fallback_used,
            None => r.text@ == FALLBACK_DIRECTIVE@ && r.fallback_used,
        },
{
    match document {
        Some(t) => Directive { text: t, fallback_used: false },
        None => Directive { text: String::from_str(FALLBACK_DIRECTIVE), fallback_used: true },
    }
}

fn append_section(s: &mut String, open: &str, period: i32, close: &str, cs: &Vec<Candle>)
    ensures
        final(s)@ == old(s)@ + section_text(open@, period, close@, cs@),
{
    let ghost start = s@;
    s.append(open);
    s.append(signed_string(period as i64).as_str());
    s.append(close);
    s.append(COLUMNS);
    s.append(format_candles(cs).as_str());
    s.append("\n\n");
    assert(s@ =~= start + section_text(open@, period, close@, cs@));
}

/// Builds the analysis prompt. Every section, the correlation one included,
/// has a fixed place; an empty series leaves its header above an empty body.
pub fn compile_prompt(d: &Mt4Data, now: &LocalTime, directive: &str) -> (r: String)
    ensures
        r@ == prompt_text(*d, *now, directive@),
{
    let mut s = String::from_str("=== メイン分析対象: ");
    s.append(d.symbol.as_str());
    s.append(" ===\n\n現在時刻: ");
    s.append(format_time(now).as_str());
    let ghost before_tail = s@;
    s.append("\n\n");
    append_section(&mut s, "【上位足 (", d.period, "分足)】 - 環境認識\n", &d.candles);
    append_section(&mut s, "【中位足 (", d.mid_period, "分足)】 - 詳細分析用\n", &d.mid_candles);
    append_section(&mut s, "【下位足 (", d.low_period, "分足)】 - エントリータイミング用\n", &d.low_candles);
    let ghost before_secondary = s@;
    s.append("=== 相関確認対象: ");
    s.append(d.sub_symbol.as_str());
    s.append(" ===\n(メイン通貨ペアとの同調・乖離を確認してください)\n\n");
    append_section(&mut s, "【相関・上位足 (", d.sub_symbol_period, "分足)】\n", &d.sub_candles);
    append_section(&mut s, "【相関・下位足 (", d.sub_symbol_low_period, "分足)】\n", &d.sub_low_candles);
    assert(s@ =~= before_secondary + secondary_text(*d));
    s.append(directive);
    assert(s@ =~= before_tail + prompt_tail(*d, directive@));
    assert(s@ =~= prompt_text(*d, *now, directive@));
    s
}

/// Two compilations of one snapshot with one directive differ only in the
/// time line: both are the same head, that clock reading's time line, and the
/// same tail.
pub proof fn lemma_prompt_differs_only_in_time(d: Mt4Data, t1: LocalTime, t2: LocalTime, directive: Seq<char>)
    ensures
        prompt_text(d, t1, directive) == prompt_head(d) + time_text(t1) + prompt_tail(d, directive),
        prompt_text(d, t2, directive) == prompt_head(d) + time_text(t2) + prompt_tail(d, directive),
        t1 == t2 ==> prompt_text(d, t1, directive) == prompt_text(d, t2, directive),
{
}

/// An absent series renders as its header and column line above an empty
/// body; compilation has no precondition, so absent series never make it fail.
pub proof fn lemma_absent_series_keep_headers(open: Seq<char>, period: i32, close: Seq<char>)
    ensures
        section_text(open, period, close, Seq::<Candle>::empty())
            == open + signed_text(period as int) + close + COLUMNS@ + "\n\n"@,
{
    assert(series_text(Seq::<Candle>::empty()) == Seq::<char>::empty());
    assert(open + signed_text(period as int) + close + COLUMNS@ + Seq::<char>::empty()
        =~= open + signed_text(period as int) + close + COLUMNS@);
}

} // verus!
