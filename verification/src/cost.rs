//! The Cost segment: aggregates (input, output) token totals over the
//! whole transcript, dispatched by model family, and prices them with the
//! registry's table. Costs are exact integers in hundredths of a
//! microdollar (1e-8 dollars), so a cent per million tokens is one unit
//! per token; rounding happens only at display time.

use crate::registry::get_pricing;
use crate::registry::lemma_pricing_bounds;
use crate::registry::resolve_model_name;
use crate::registry::spec_pricing;
use crate::registry::spec_resolve_model;
use crate::text::dec_u128;
use crate::text::lemma_dec_all_digits;
use crate::text::lemma_dec_first_nonzero;
use crate::text::lemma_dec_len_bound;
use crate::text::lemma_dec_len_pos;
use crate::text::lemma_pad_left_as_zeros;
use crate::text::lemma_pad_left_len;
use crate::text::lemma_tail_after_final_ch;
use crate::text::lemma_tail_skips_clean_suffix;
use crate::text::lemma_zeros;
use crate::text::pad_left_zeros;
use crate::text::round_half_even_u128;
use crate::text::spec_dec;
use crate::text::spec_is_digit_char;
use crate::text::spec_pad_left;
use crate::text::spec_pow10;
use crate::text::spec_round_half_even;
use crate::text::spec_tail_after_last;
use crate::text::spec_zeros;
use crate::text::str_eq_check;
use crate::types::InputData;
use crate::types::TranscriptEntry;
use crate::types::Usage;
use crate::usage::opt_u64;
use crate::usage::spec_entry_usage;
use crate::usage::spec_opt0;
use vstd::prelude::*;

verus! {

/// No aggregated token total can exceed this: one entry contributes less
/// than 0x3_0000_0000 tokens to either side, and a transcript holds at
/// most usize::MAX entries.
pub const MAX_TOKEN_TOTAL: u128 = 0x3_0000_0000 * 0xFFFF_FFFF_FFFF_FFFF;

/// The (input, output) pair one usage record contributes to the cost
/// aggregation: GLM splits a positive reported total 70/30 (the input
/// share truncated, the remainder to output); the sonnet family counts all
/// input-side fields against input; GPT counts the plain fields; an
/// unknown identifier counts the sonnet-family way.
pub open spec fn spec_cost_tokens(u: Usage, m: Seq<char>) -> (int, int) {
    if m == "glm-4.5"@ || m == "glm-4"@ {
        match u.total_tokens {
            Some(t) => if t > 0 {
                let est_in = (t as int) * 7 / 10;
                (est_in, t as int - est_in)
            } else {
                (spec_opt0(u.input_tokens), spec_opt0(u.output_tokens))
            },
            None => (spec_opt0(u.input_tokens), spec_opt0(u.output_tokens)),
        }
    } else if m == "3-5-sonnet-20241022"@ || m == "3-haiku-20240307"@ {
        (
            spec_opt0(u.input_tokens) + spec_opt0(u.cache_creation_input_tokens) + spec_opt0(
                u.cache_read_input_tokens,
            ),
            spec_opt0(u.output_tokens),
        )
    } else if m == "gpt-4"@ || m == "gpt-3.5-turbo"@ {
        (spec_opt0(u.input_tokens), spec_opt0(u.output_tokens))
    } else {
        (
            spec_opt0(u.input_tokens) + spec_opt0(u.cache_creation_input_tokens) + spec_opt0(
                u.cache_read_input_tokens,
            ),
            spec_opt0(u.output_tokens),
        )
    }
}

/// The pair an entry contributes: zero unless it is an assistant entry
/// with a usage record.
pub open spec fn spec_entry_cost_tokens(e: TranscriptEntry, m: Seq<char>) -> (int, int) {
    match spec_entry_usage(e) {
        Some(u) => spec_cost_tokens(u, m),
        None => (0, 0),
    }
}

/// The aggregated (input, output) token totals over a whole transcript.
pub open spec fn spec_cost_totals(s: Seq<TranscriptEntry>, m: Seq<char>) -> (int, int)
    decreases s.len(),
{
    if s.len() == 0 {
        (0, 0)
    } else {
        let prev = spec_cost_totals(s.drop_last(), m);
        let c = spec_entry_cost_tokens(s.last(), m);
        (prev.0 + c.0, prev.1 + c.1)
    }
}

fn cost_tokens(usage: &Usage, model_name: &str) -> (r: (u64, u64))
    ensures
        r.0 as int == spec_cost_tokens(*usage, model_name@).0,
        r.1 as int == spec_cost_tokens(*usage, model_name@).1,
        r.0 < 0x3_0000_0000,
        r.1 < 0x3_0000_0000,
{
    if str_eq_check(model_name, "glm-4.5") || str_eq_check(model_name, "glm-4") {
        match usage.total_tokens {
            Some(t) => {
                if t > 0 {
                    let t7 = (t as u64) * 7;
                    let est_in = t7 / 10;
                    proof {
                        assert(est_in <= t);
                    }
                    (est_in, t as u64 - est_in)
                } else {
                    (opt_u64(usage.input_tokens), opt_u64(usage.output_tokens))
                }
            },
            None => (opt_u64(usage.input_tokens), opt_u64(usage.output_tokens)),
        }
    } else if str_eq_check(model_name, "3-5-sonnet-20241022") || str_eq_check(
        model_name,
        "3-haiku-20240307",
    ) {
        (
            opt_u64(usage.input_tokens) + opt_u64(usage.cache_creation_input_tokens) + opt_u64(
                usage.cache_read_input_tokens,
            ),
            opt_u64(usage.output_tokens),
        )
    } else if str_eq_check(model_name, "gpt-4") || str_eq_check(model_name, "gpt-3.5-turbo") {
        (opt_u64(usage.input_tokens), opt_u64(usage.output_tokens))
    } else {
        (
            opt_u64(usage.input_tokens) + opt_u64(usage.cache_creation_input_tokens) + opt_u64(
                usage.cache_read_input_tokens,
            ),
            opt_u64(usage.output_tokens),
        )
    }
}

/// The exact cost, in 1e-8 dollars, of the given token totals under the
/// given canonical identifier; zero for an identifier with no pricing
/// entry.
pub open spec fn spec_cost_e8(ti: int, to: int, m: Seq<char>) -> int {
    match spec_pricing(m) {
        Some(p) => ti * p.0 + to * p.1,
        None => 0,
    }
}

/// The displayed precision (digits after the point) for an exact cost in
/// 1e-8 dollars: four below one cent, three below one dollar, two
/// otherwise.
pub open spec fn spec_cost_precision(c: int) -> int {
    if c < 1_000_000 {
        4
    } else if c < 100_000_000 {
        3
    } else {
        2
    }
}

/// The dollar string for an exact cost in 1e-8 dollars: '$', the whole
/// part, a point, and exactly the chosen number of digits, the cost
/// rounded half-to-even at that precision.
pub open spec fn spec_cost_display(c: int) -> Seq<char> {
    let d = spec_cost_precision(c);
    let v = spec_round_half_even(c, spec_pow10((8 - d) as nat));
    let unit = spec_pow10(d as nat);
    seq!['$'].add(spec_dec(v / unit)).add(seq!['.']).add(
        spec_pad_left(spec_dec(v % unit), d),
    )
}

/// Renders an exact cost as a dollar string.
pub fn cost_display(c: u128) -> (r: String)
    requires
        c <= u128::MAX / 2,
    ensures
        r@ == spec_cost_display(c as int),
{
    proof {
        assert(spec_pow10(0) == 1);
        assert(spec_pow10(1) == 10);
        assert(spec_pow10(2) == 100);
        assert(spec_pow10(3) == 1000);
        assert(spec_pow10(4) == 10000);
        assert(spec_pow10(5) == 100000);
        assert(spec_pow10(6) == 1000000);
        reveal_strlit("$");
        reveal_strlit(".");
    }
    let d: usize;
    let scale: u128;
    let unit: u128;
    if c < 1_000_000 {
        d = 4;
        scale = 10_000;
        unit = 10_000;
    } else if c < 100_000_000 {
        d = 3;
        scale = 100_000;
        unit = 1_000;
    } else {
        d = 2;
        scale = 1_000_000;
        unit = 100;
    }
    let v = round_half_even_u128(c, scale);
    let mut s = "$".to_owned();
    let whole = dec_u128(v / unit);
    s.append(whole.as_str());
    s.append(".");
    let frac = pad_left_zeros(dec_u128(v % unit), d);
    s.append(frac.as_str());
    proof {
        assert(s@ =~= spec_cost_display(c as int));
    }
    s
}

proof fn lemma_pow10_values()
    ensures
        spec_pow10(0) == 1,
        spec_pow10(1) == 10,
        spec_pow10(2) == 100,
        spec_pow10(3) == 1000,
        spec_pow10(4) == 10000,
        spec_pow10(5) == 100000,
        spec_pow10(6) == 1000000,
{
    assert(spec_pow10(0) == 1);
    assert(spec_pow10(1) == 10);
    assert(spec_pow10(2) == 100);
    assert(spec_pow10(3) == 1000);
    assert(spec_pow10(4) == 10000);
    assert(spec_pow10(5) == 100000);
    assert(spec_pow10(6) == 1000000);
}

/// Law: display precision follows magnitude. The dollar string ends in a
/// run of digits after its decimal point: exactly four of them when the
/// exact cost is below one cent, three when it is below one dollar, two
/// from one dollar up.
pub proof fn lemma_cost_display_precision(c: int)
    requires
        c >= 0,
    ensures
        spec_tail_after_last(spec_cost_display(c), '.').len() == spec_cost_precision(c),
        forall|j: int|
            0 <= j < spec_cost_precision(c) ==> spec_is_digit_char(
                #[trigger] spec_tail_after_last(spec_cost_display(c), '.')[j],
            ),
{
    lemma_pow10_values();
    let d = spec_cost_precision(c);
    let scale = spec_pow10((8 - d) as nat);
    let v = spec_round_half_even(c, scale);
    let unit = spec_pow10(d as nat);
    let fval = v % unit;
    let frac = spec_pad_left(spec_dec(fval), d);
    let head = seq!['$'].add(spec_dec(v / unit)).add(seq!['.']);
    assert(spec_cost_display(c) == head.add(frac));
    lemma_dec_len_bound(fval, d as nat);
    lemma_dec_all_digits(fval);
    lemma_pad_left_as_zeros(spec_dec(fval), d);
    lemma_zeros(d - spec_dec(fval).len());
    assert(frac.len() == d);
    assert forall|j: int| 0 <= j < frac.len() implies spec_is_digit_char(#[trigger] frac[j]) by {
        if j < d - spec_dec(fval).len() {
            assert(frac[j] == spec_zeros(d - spec_dec(fval).len())[j]);
            assert(frac[j] == '0');
        } else {
            assert(frac[j] == spec_dec(fval)[j - (d - spec_dec(fval).len())]);
        }
    }
    assert(head =~= seq!['$'].add(spec_dec(v / unit)).push('.'));
    lemma_tail_after_final_ch(seq!['$'].add(spec_dec(v / unit)), '.');
    assert forall|j: int| 0 <= j < frac.len() implies frac[j] != '.' by {
        assert(spec_is_digit_char(frac[j]));
    }
    lemma_tail_skips_clean_suffix(head, frac, '.');
    assert(spec_tail_after_last(spec_cost_display(c), '.') =~= frac);
}

/// A dollar string never equals the bare zero sentinel's money part: at
/// four digits of precision it is longer, and otherwise the rounded value
/// forces a digit other than '0' somewhere the sentinel has none.
proof fn lemma_cost_display_not_zero_money(c: int)
    requires
        c >= 0,
    ensures
        spec_cost_display(c) != "$0.000"@,
{
    reveal_strlit("$0.000");
    lemma_pow10_values();
    let d = spec_cost_precision(c);
    let scale = spec_pow10((8 - d) as nat);
    let v = spec_round_half_even(c, scale);
    let unit = spec_pow10(d as nat);
    let whole = spec_dec(v / unit);
    let frac = spec_pad_left(spec_dec(v % unit), d);
    lemma_dec_len_pos(v / unit);
    lemma_dec_len_bound(v % unit, d as nat);
    lemma_pad_left_len(spec_dec(v % unit), d);
    assert(spec_cost_display(c).len() == 2 + whole.len() + d);
    if c < 1_000_000 {
        assert(spec_cost_display(c).len() >= 7);
    } else if c < 100_000_000 {
        let q = c / 100000;
        assert(10 <= q <= 999);
        assert(v == q || v == q + 1);
        if v == 1000 {
            assert(v / unit == 1);
            lemma_dec_first_nonzero(v / unit);
            assert(spec_cost_display(c)[1] == whole[0]);
            assert(("$0.000"@)[1] == '0');
        } else {
            assert(v / unit == 0);
            assert(v % unit == v);
            lemma_dec_first_nonzero(v % unit);
            lemma_pad_left_as_zeros(spec_dec(v % unit), d);
            lemma_zeros(d - spec_dec(v % unit).len());
            let ll = spec_dec(v % unit).len() as int;
            assert(v >= 10);
            assert(ll >= 2) by {
                assert(spec_dec(v).len() == spec_dec(v / 10).len() + 1);
                lemma_dec_len_pos(v / 10);
            }
            assert(whole.len() == 1);
            assert(frac[3 - ll] == spec_dec(v % unit)[0]);
            assert(spec_cost_display(c)[3 + (3 - ll)] == frac[3 - ll]);
            assert(("$0.000"@)[3 + (3 - ll)] == '0');
            assert(spec_cost_display(c)[3 + (3 - ll)] != '0');
        }
    } else {
        let q = c / 1000000;
        assert(q >= 100);
        assert(v == q || v == q + 1);
        assert(v / unit >= 1);
        lemma_dec_first_nonzero(v / unit);
        if spec_cost_display(c).len() == 6 {
            assert(spec_cost_display(c)[1] == whole[0]);
            assert(("$0.000"@)[1] == '0');
        }
    }
}

/// Every entry contributes non-negative token counts on both sides.
proof fn lemma_cost_totals_nonneg(s: Seq<TranscriptEntry>, m: Seq<char>)
    ensures
        spec_cost_totals(s, m).0 >= 0,
        spec_cost_totals(s, m).1 >= 0,
    decreases s.len(),
{
    if s.len() > 0 {
        lemma_cost_totals_nonneg(s.drop_last(), m);
        let c = spec_entry_cost_tokens(s.last(), m);
        assert(c.0 >= 0 && c.1 >= 0) by {
            match spec_entry_usage(s.last()) {
                Some(u) => {
                    match u.total_tokens {
                        Some(t) => {
                            if t > 0 {
                                assert((t as int) * 7 / 10 <= t as int) by (nonlinear_arith);
                                assert((t as int) * 7 / 10 >= 0) by (nonlinear_arith);
                            }
                        },
                        None => {},
                    }
                },
                None => {},
            }
        }
    }
}

/// Law: the Cost segment shows the fixed zero sentinel exactly when the
/// aggregated input and output token totals are both zero. A rendered
/// cost, however small or large, never collides with the sentinel.
pub proof fn lemma_sentinel_iff_no_usage(name: Seq<char>, entries: Seq<TranscriptEntry>)
    ensures
        (spec_cost_render(name, entries) == "\u{f09d3} $0.000"@) <==> (spec_cost_totals(
            entries,
            spec_resolve_model(name),
        ).0 == 0 && spec_cost_totals(entries, spec_resolve_model(name)).1 == 0),
{
    let m = spec_resolve_model(name);
    let t = spec_cost_totals(entries, m);
    if !(t.0 == 0 && t.1 == 0) {
        lemma_cost_totals_nonneg(entries, m);
        let c = spec_cost_e8(t.0, t.1, m);
        assert(c >= 0) by {
            match spec_pricing(m) {
                Some(p) => {
                    assert(t.0 * p.0 >= 0) by (nonlinear_arith)
                        requires
                            t.0 >= 0,
                            p.0 >= 0,
                    ;
                    assert(t.1 * p.1 >= 0) by (nonlinear_arith)
                        requires
                            t.1 >= 0,
                            p.1 >= 0,
                    ;
                },
                None => {},
            }
        }
        lemma_cost_display_not_zero_money(c);
        reveal_strlit("\u{f09d3} $0.000");
        reveal_strlit("\u{f09d3} ");
        reveal_strlit("$0.000");
        assert(("\u{f09d3} $0.000"@) =~= ("\u{f09d3} "@).add("$0.000"@));
        if spec_cost_render(name, entries) == "\u{f09d3} $0.000"@ {
            let disp = spec_cost_display(c);
            let pre = "\u{f09d3} "@;
            assert(pre.add(disp) == pre.add("$0.000"@));
            assert(disp.len() == ("$0.000"@).len());
            assert forall|j: int| 0 <= j < disp.len() implies disp[j] == ("$0.000"@)[j] by {
                assert(pre.add(disp)[pre.len() + j] == disp[j]);
                assert(pre.add("$0.000"@)[pre.len() + j] == ("$0.000"@)[j]);
            }
            assert(disp =~= "$0.000"@);
            assert(false);
        }
    }
}

/// What the Cost segment shows for a display name and a transcript: the
/// fixed zero sentinel when the aggregated totals are both zero (no usage
/// data found), else the cost icon and the dollar string of the exact
/// cost.
pub open spec fn spec_cost_render(name: Seq<char>, entries: Seq<TranscriptEntry>) -> Seq<char> {
    let m = spec_resolve_model(name);
    let t = spec_cost_totals(entries, m);
    if t.0 == 0 && t.1 == 0 {
        "\u{f09d3} $0.000"@
    } else {
        "\u{f09d3} "@.add(spec_cost_display(spec_cost_e8(t.0, t.1, m)))
    }
}

/// The Cost segment: a dollar estimate over the whole transcript.
pub struct CostSegment {
    pub enabled: bool,
}

impl CostSegment {
    pub fn new(enabled: bool) -> (s: CostSegment)
        ensures
            s.enabled == enabled,
    {
        CostSegment { enabled }
    }

    /// The canonical identifier used for the pricing lookup.
    pub fn extract_model_name(model_display: &str) -> (r: &'static str)
        ensures
            r@ == spec_resolve_model(model_display@),
    {
        resolve_model_name(model_display)
    }

    /// Aggregates the (input, output) token totals over every assistant
    /// usage record of the transcript.
    pub fn parse_transcript_costs(&self, entries: &Vec<TranscriptEntry>, model_name: &str) -> (r: (
        u128,
        u128,
    ))
        ensures
            r.0 as int == spec_cost_totals(entries@, model_name@).0,
            r.1 as int == spec_cost_totals(entries@, model_name@).1,
            r.0 <= MAX_TOKEN_TOTAL,
            r.1 <= MAX_TOKEN_TOTAL,
    {
        let mut ti: u128 = 0;
        let mut to: u128 = 0;
        let mut i: usize = 0;
        proof {
            assert(entries@.take(0) =~= Seq::<TranscriptEntry>::empty());
        }
        while i < entries.len()
            invariant
                i <= entries@.len(),
                ti as int == spec_cost_totals(entries@.take(i as int), model_name@).0,
                to as int == spec_cost_totals(entries@.take(i as int), model_name@).1,
                ti as int <= 0x3_0000_0000 * (i as int),
                to as int <= 0x3_0000_0000 * (i as int),
            decreases entries@.len() - i,
        {
            let e = &entries[i];
            let mut ci: u64 = 0;
            let mut co: u64 = 0;
            if str_eq_check(e.entry_type.as_str(), "assistant") {
                match &e.message {
                    Some(m) => {
                        match &m.usage {
                            Some(u) => {
                                let p = cost_tokens(u, model_name);
                                ci = p.0;
                                co = p.1;
                            },
                            None => {},
                        }
                    },
                    None => {},
                }
            }
            proof {
                assert(entries@.take(i as int + 1).drop_last() =~= entries@.take(i as int));
                assert(entries@.take(i as int + 1).last() == entries@[i as int]);
                assert(ci as int == spec_entry_cost_tokens(entries@[i as int], model_name@).0);
                assert(co as int == spec_entry_cost_tokens(entries@[i as int], model_name@).1);
                assert(0x3_0000_0000 * (i as int) + 0x3_0000_0000 == 0x3_0000_0000 * (i as int
                    + 1)) by (nonlinear_arith);
                assert(0x3_0000_0000 * (i as int + 1) <= 0x3_0000_0000 * 0x1_0000_0000_0000_0000)
                    by (nonlinear_arith)
                    requires
                        i as int + 1 <= 0x1_0000_0000_0000_0000,
                ;
            }
            ti = ti + (ci as u128);
            to = to + (co as u128);
            i += 1;
        }
        proof {
            assert(entries@.take(entries@.len() as int) =~= entries@);
            assert(0x3_0000_0000 * (i as int) <= 0x3_0000_0000 * 0xFFFF_FFFF_FFFF_FFFF)
                by (nonlinear_arith)
                requires
                    0 <= i as int <= 0xFFFF_FFFF_FFFF_FFFF,
            ;
        }
        (ti, to)
    }

    /// Prices the aggregated totals with the registry's table; an
    /// identifier without a pricing entry costs zero.
    pub fn calculate_total_cost(&self, input_tokens: u128, output_tokens: u128, model_name: &str) -> (r:
        u128)
        requires
            input_tokens <= MAX_TOKEN_TOTAL,
            output_tokens <= MAX_TOKEN_TOTAL,
        ensures
            r as int == spec_cost_e8(input_tokens as int, output_tokens as int, model_name@),
            r <= u128::MAX / 2,
    {
        match get_pricing(model_name) {
            Some(p) => {
                proof {
                    lemma_pricing_bounds(model_name@);
                    assert(input_tokens as int * p.0 as int <= MAX_TOKEN_TOTAL * 6000)
                        by (nonlinear_arith)
                        requires
                            0 <= input_tokens <= MAX_TOKEN_TOTAL,
                            0 <= p.0 <= 6000,
                    ;
                    assert(output_tokens as int * p.1 as int <= MAX_TOKEN_TOTAL * 6000)
                        by (nonlinear_arith)
                        requires
                            0 <= output_tokens <= MAX_TOKEN_TOTAL,
                            0 <= p.1 <= 6000,
                    ;
                }
                input_tokens * (p.0 as u128) + output_tokens * (p.1 as u128)
            },
            None => 0,
        }
    }

    /// Renders the Cost segment; the empty string when the segment is
    /// disabled.
    pub fn render(&self, input: &InputData, entries: &Vec<TranscriptEntry>) -> (r: String)
        ensures
            self.enabled ==> r@ == spec_cost_render(input.model.display_name@, entries@),
            !self.enabled ==> r@ == Seq::<char>::empty(),
    {
        if !self.enabled {
            return String::new();
        }
        let model_name = Self::extract_model_name(input.model.display_name.as_str());
        let totals = self.parse_transcript_costs(entries, model_name);
        if totals.0 == 0 && totals.1 == 0 {
            return "\u{f09d3} $0.000".to_owned();
        }
        let total_cost = self.calculate_total_cost(totals.0, totals.1, model_name);
        let mut s = "\u{f09d3} ".to_owned();
        let money = cost_display(total_cost);
        s.append(money.as_str());
        proof {
            assert(s@ =~= spec_cost_render(input.model.display_name@, entries@));
        }
        s
    }

    pub fn enabled(&self) -> (r: bool)
        ensures
            r == self.enabled,
    {
        self.enabled
    }
}

} // verus!
