use vstd::prelude::*;
use crate::clock::{log_stamp, stamp_text, year_text};
use crate::digits::{fixed_width, lemma_fixed_width_digits, lemma_fixed_width_injective};
use crate::model::LocalTime;

verus! {

/// Directory of the audit copies of inbound snapshots.
pub const DATA_LOG_DIR: &'static str = "logs/data";

/// Directory of the audit copies of compiled prompts.
pub const PROMPT_LOG_DIR: &'static str = "logs/prompts";

pub open spec fn data_log_text(symbol: Seq<char>, t: LocalTime) -> Seq<char> {
    DATA_LOG_DIR@ + "/log_"@ + symbol + "_"@ + stamp_text(t) + ".json"@
}

pub open spec fn prompt_log_text(symbol: Seq<char>, t: LocalTime) -> Seq<char> {
    PROMPT_LOG_DIR@ + "/prompt_"@ + symbol + "_"@ + stamp_text(t) + ".txt"@
}

/// The file that receives the audit copy of a snapshot for `symbol` taken at
/// the second `t`.
pub fn data_log_path(symbol: &str, t: &LocalTime) -> (r: String)
    ensures
        r@ == data_log_text(symbol@, *t),
{
    let mut s = String::from_str(DATA_LOG_DIR);
    s.append("/log_");
    s.append(symbol);
    s.append("_");
    s.append(log_stamp(t).as_str());
    s.append(".json");
    s
}

/// The file that receives the audit copy of a prompt for `symbol` compiled at
/// the second `t`.
pub fn prompt_log_path(symbol: &str, t: &LocalTime) -> (r: String)
    ensures
        r@ == prompt_log_text(symbol@, *t),
{
    let mut s = String::from_str(PROMPT_LOG_DIR);
    s.append("/prompt_");
    s.append(symbol);
    s.append("_");
    s.append(log_stamp(t).as_str());
    s.append(".txt");
    s
}

/// A snapshot's audit file lies under the data directory, and its name holds
/// the symbol and, after it, the second-precision stamp of the time given.
pub proof fn lemma_data_log_names_symbol_and_second(symbol: Seq<char>, t: LocalTime)
    ensures
        ({
            let p = data_log_text(symbol, t);
            let k: int = DATA_LOG_DIR@.len() + "/log_"@.len() as int;
            let j: int = k + symbol.len() + 1;
            &&& p.subrange(0, DATA_LOG_DIR@.len() as int) == DATA_LOG_DIR@
            &&& p.subrange(k, k + symbol.len()) == symbol
            &&& p.subrange(j, j + stamp_text(t).len()) == stamp_text(t)
        }),
{
    let p = data_log_text(symbol, t);
    let k: int = DATA_LOG_DIR@.len() + "/log_"@.len() as int;
    let j: int = k + symbol.len() + 1;
    assert("_"@.len() == 1) by { reveal_strlit("_"); }
    assert(p.subrange(0, DATA_LOG_DIR@.len() as int) =~= DATA_LOG_DIR@);
    assert(p.subrange(k, k + symbol.len()) =~= symbol);
    assert(p.subrange(j, j + stamp_text(t).len()) =~= stamp_text(t));
}

/// The stamp of a clock reading with a four-digit year: fifteen characters,
/// each field zero-padded at a fixed place.
proof fn lemma_stamp_layout(t: LocalTime)
    requires
        t.wf(),
        0 <= t.year <= 9999,
    ensures
        stamp_text(t).len() == 15,
        stamp_text(t).subrange(0, 4) == fixed_width(t.year as nat, 4),
        stamp_text(t).subrange(4, 6) == fixed_width(t.month as nat, 2),
        stamp_text(t).subrange(6, 8) == fixed_width(t.day as nat, 2),
        stamp_text(t).subrange(9, 11) == fixed_width(t.hour as nat, 2),
        stamp_text(t).subrange(11, 13) == fixed_width(t.minute as nat, 2),
        stamp_text(t).subrange(13, 15) == fixed_width(t.second as nat, 2),
{
    lemma_fixed_width_digits(t.year as nat, 4);
    lemma_fixed_width_digits(t.month as nat, 2);
    lemma_fixed_width_digits(t.day as nat, 2);
    lemma_fixed_width_digits(t.hour as nat, 2);
    lemma_fixed_width_digits(t.minute as nat, 2);
    lemma_fixed_width_digits(t.second as nat, 2);
    assert("_"@.len() == 1) by { reveal_strlit("_"); }
    let st = stamp_text(t);
    assert(year_text(t.year as int) == fixed_width(t.year as nat, 4));
    assert(st.subrange(0, 4) =~= fixed_width(t.year as nat, 4));
    assert(st.subrange(4, 6) =~= fixed_width(t.month as nat, 2));
    assert(st.subrange(6, 8) =~= fixed_width(t.day as nat, 2));
    assert(st.subrange(9, 11) =~= fixed_width(t.hour as nat, 2));
    assert(st.subrange(11, 13) =~= fixed_width(t.minute as nat, 2));
    assert(st.subrange(13, 15) =~= fixed_width(t.second as nat, 2));
}

proof fn lemma_stamp_injective(t1: LocalTime, t2: LocalTime)
    requires
        t1.wf(),
        t2.wf(),
        0 <= t1.year <= 9999,
        0 <= t2.year <= 9999,
        stamp_text(t1) == stamp_text(t2),
    ensures
        t1 == t2,
{
    lemma_stamp_layout(t1);
    lemma_stamp_layout(t2);
    reveal_with_fuel(crate::digits::pow10, 5);
    lemma_fixed_width_injective(t1.year as nat, t2.year as nat, 4);
    lemma_fixed_width_injective(t1.month as nat, t2.month as nat, 2);
    lemma_fixed_width_injective(t1.day as nat, t2.day as nat, 2);
    lemma_fixed_width_injective(t1.hour as nat, t2.hour as nat, 2);
    lemma_fixed_width_injective(t1.minute as nat, t2.minute as nat, 2);
    lemma_fixed_width_injective(t1.second as nat, t2.second as nat, 2);
}

/// Snapshots for different symbols, or taken in different seconds, get
/// different audit files (for clock readings of years 0 to 9999).
pub proof fn lemma_data_logs_do_not_collide(s1: Seq<char>, t1: LocalTime, s2: Seq<char>, t2: LocalTime)
    requires
        t1.wf(),
        t2.wf(),
        0 <= t1.year <= 9999,
        0 <= t2.year <= 9999,
        data_log_text(s1, t1) == data_log_text(s2, t2),
    ensures
        s1 == s2,
        t1 == t2,
{
    lemma_stamp_layout(t1);
    lemma_stamp_layout(t2);
    assert("_"@.len() == 1) by { reveal_strlit("_"); }
    let p1 = data_log_text(s1, t1);
    let p2 = data_log_text(s2, t2);
    let k: int = DATA_LOG_DIR@.len() + "/log_"@.len() as int;
    assert(p1.len() == k + s1.len() + 1 + 15 + ".json"@.len());
    assert(p2.len() == k + s2.len() + 1 + 15 + ".json"@.len());
    assert(s1.len() == s2.len());
    assert(p1.subrange(k, k + s1.len()) =~= s1);
    assert(p2.subrange(k, k + s2.len()) =~= s2);
    let j: int = k + s1.len() + 1;
    assert(p1.subrange(j, j + 15) =~= stamp_text(t1));
    assert(p2.subrange(j, j + 15) =~= stamp_text(t2));
    lemma_stamp_injective(t1, t2);
}

} // verus!
