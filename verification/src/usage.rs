//! Token accounting and the Usage segment: turns the transcript's most
//! recent assistant usage record into a "context window consumption"
//! figure and renders it as a percentage and a token count.

use crate::registry::spec_resolve_model;
use crate::registry::resolve_model_name;
use crate::text::dec_u128;
use crate::text::digit_str;
use crate::text::round_half_even_u128;
use crate::text::spec_dec;
use crate::text::spec_digit_char;
use crate::text::spec_round_half_even;
use crate::text::str_eq_check;
use crate::types::TranscriptEntry;
use crate::types::Usage;
use vstd::prelude::*;

verus! {

/// The reported value of an optional token field, zero when the vendor
/// did not report it.
pub open spec fn spec_opt0(o: Option<u32>) -> int {
    match o {
        Some(v) => v as int,
        None => 0,
    }
}

/// The single "tokens consumed" figure for one usage record, by the
/// priority chain: a reported total wins verbatim (even zero); else the
/// sonnet-family input sum when positive; else the OpenAI prompt plus
/// completion (or output) counts; else the bare input count.
pub open spec fn spec_tokens_consumed(u: Usage) -> int {
    match u.total_tokens {
        Some(t) => t as int,
        None => {
            let input_sum = spec_opt0(u.input_tokens) + spec_opt0(u.cache_creation_input_tokens)
                + spec_opt0(u.cache_read_input_tokens);
            if input_sum > 0 {
                input_sum
            } else {
                match u.prompt_tokens {
                    Some(p) => p as int + (match u.completion_tokens {
                        Some(c) => c as int,
                        None => spec_opt0(u.output_tokens),
                    }),
                    None => spec_opt0(u.input_tokens),
                }
            }
        },
    }
}

pub(crate) fn opt_u64(o: Option<u32>) -> (r: u64)
    ensures
        r as int == spec_opt0(o),
{
    match o {
        Some(v) => v as u64,
        None => 0,
    }
}

/// The "tokens consumed" figure the Usage segment reports for one usage
/// record.
pub fn calculate_input_tokens(usage: &Usage) -> (r: u64)
    ensures
        r as int == spec_tokens_consumed(*usage),
{
    match usage.total_tokens {
        Some(t) => t as u64,
        None => {
            let input_sum = opt_u64(usage.input_tokens) + opt_u64(usage.cache_creation_input_tokens)
                + opt_u64(usage.cache_read_input_tokens);
            if input_sum > 0 {
                input_sum
            } else {
                match usage.prompt_tokens {
                    Some(p) => {
                        let completion = match usage.completion_tokens {
                            Some(c) => c as u64,
                            None => opt_u64(usage.output_tokens),
                        };
                        p as u64 + completion
                    },
                    None => opt_u64(usage.input_tokens),
                }
            }
        },
    }
}

/// Law: a usage record that reports no field at all yields zero tokens
/// consumed.
pub proof fn lemma_tokens_consumed_all_absent(u: Usage)
    requires
        u.input_tokens is None,
        u.output_tokens is None,
        u.cache_creation_input_tokens is None,
        u.cache_read_input_tokens is None,
        u.prompt_tokens is None,
        u.completion_tokens is None,
        u.total_tokens is None,
    ensures
        spec_tokens_consumed(u) == 0,
{
}

/// The model-family-dispatched token figure: GLM prefers a positive
/// reported total, the sonnet family sums the input-side fields, GPT adds input and
/// output; an unknown identifier counts the sonnet-family way.
pub open spec fn spec_tokens_for_model(u: Usage, m: Seq<char>) -> int {
    if m == "glm-4.5"@ || m == "glm-4"@ {
        match u.total_tokens {
            Some(t) => if t > 0 {
                t as int
            } else {
                spec_opt0(u.input_tokens) + spec_opt0(u.output_tokens)
            },
            None => spec_opt0(u.input_tokens) + spec_opt0(u.output_tokens),
        }
    } else if m == "3-5-sonnet-20241022"@ || m == "3-haiku-20240307"@ {
        spec_opt0(u.input_tokens) + spec_opt0(u.cache_creation_input_tokens) + spec_opt0(
            u.cache_read_input_tokens,
        )
    } else if m == "gpt-4"@ || m == "gpt-3.5-turbo"@ {
        spec_opt0(u.input_tokens) + spec_opt0(u.output_tokens)
    } else {
        spec_opt0(u.input_tokens) + spec_opt0(u.cache_creation_input_tokens) + spec_opt0(
            u.cache_read_input_tokens,
        )
    }
}

/// The usage record attached to an entry, when the entry is an assistant
/// entry that carries one.
pub open spec fn spec_entry_usage(e: TranscriptEntry) -> Option<Usage> {
    if e.entry_type@ == "assistant"@ {
        match e.message {
            Some(m) => m.usage,
            None => None,
        }
    } else {
        None
    }
}

/// The most recent assistant usage record, scanning the transcript from
/// its end.
pub open spec fn spec_last_usage(s: Seq<TranscriptEntry>) -> Option<Usage>
    decreases s.len(),
{
    if s.len() == 0 {
        None
    } else {
        match spec_entry_usage(s.last()) {
            Some(u) => Some(u),
            None => spec_last_usage(s.drop_last()),
        }
    }
}

/// The tokens-consumed figure for a whole transcript: the figure of its
/// most recent assistant usage record, zero when there is none.
pub open spec fn spec_transcript_tokens(s: Seq<TranscriptEntry>) -> int {
    match spec_last_usage(s) {
        Some(u) => spec_tokens_consumed(u),
        None => 0,
    }
}

/// Scans the transcript entries newest-first and returns the
/// tokens-consumed figure of the most recent assistant usage record, or
/// zero when no entry qualifies.
pub fn parse_transcript_usage(entries: &Vec<TranscriptEntry>) -> (r: u64)
    ensures
        r as int == spec_transcript_tokens(entries@),
{
    proof {
        assert(entries@.take(entries@.len() as int) =~= entries@);
    }
    let mut i: usize = entries.len();
    while i > 0
        invariant
            i <= entries@.len(),
            spec_last_usage(entries@) == spec_last_usage(entries@.take(i as int)),
        decreases i,
    {
        i -= 1;
        let e = &entries[i];
        proof {
            assert(entries@.take(i as int + 1).drop_last() =~= entries@.take(i as int));
            assert(entries@.take(i as int + 1).last() == entries@[i as int]);
        }
        if str_eq_check(e.entry_type.as_str(), "assistant") {
            match &e.message {
                Some(m) => {
                    match &m.usage {
                        Some(u) => {
                            proof {
                                assert(spec_entry_usage(entries@[i as int]) == Some(*u));
                            }
                            return calculate_input_tokens(u);
                        },
                        None => {},
                    }
                },
                None => {},
            }
        }
        proof {
            assert(spec_entry_usage(entries@[i as int]) is None);
        }
    }
    proof {
        assert(entries@.take(0) =~= Seq::<TranscriptEntry>::empty());
    }
    0
}

/// The percentage of the 200000-token context window: an integer when the
/// exact percentage is whole, otherwise one decimal digit, ties to even.
pub open spec fn spec_percent_display(t: int) -> Seq<char> {
    if t % 2000 == 0 {
        spec_dec(t / 2000)
    } else {
        let w = spec_round_half_even(t, 200);
        spec_dec(w / 10).add(seq!['.']).add(seq![spec_digit_char(w % 10)])
    }
}

/// Renders the context percentage for a token count.
pub fn percent_display(t: u64) -> (r: String)
    ensures
        r@ == spec_percent_display(t as int),
{
    if t % 2000 == 0 {
        dec_u128((t / 2000) as u128)
    } else {
        let w = round_half_even_u128(t as u128, 200);
        let mut s = dec_u128(w / 10);
        proof {
            reveal_strlit(".");
        }
        s.append(".");
        s.append(digit_str((w % 10) as u64));
        proof {
            assert(s@ =~= spec_percent_display(t as int));
        }
        s
    }
}

/// The token count display: the bare number below one thousand; otherwise
/// thousands with a "k" suffix, an integer when exact, else one decimal
/// digit, ties to even.
pub open spec fn spec_tokens_display(t: int) -> Seq<char> {
    if t >= 1000 {
        if t % 1000 == 0 {
            spec_dec(t / 1000).add(seq!['k'])
        } else {
            let w = spec_round_half_even(t, 100);
            spec_dec(w / 10).add(seq!['.']).add(seq![spec_digit_char(w % 10)]).add(seq!['k'])
        }
    } else {
        spec_dec(t)
    }
}

/// Renders the token count.
pub fn tokens_display(t: u64) -> (r: String)
    ensures
        r@ == spec_tokens_display(t as int),
{
    proof {
        reveal_strlit("k");
        reveal_strlit(".");
    }
    if t >= 1000 {
        if t % 1000 == 0 {
            let mut s = dec_u128((t / 1000) as u128);
            s.append("k");
            proof {
                assert(s@ =~= spec_tokens_display(t as int));
            }
            s
        } else {
            let w = round_half_even_u128(t as u128, 100);
            let mut s = dec_u128(w / 10);
            s.append(".");
            s.append(digit_str((w % 10) as u64));
            s.append("k");
            proof {
                assert(s@ =~= spec_tokens_display(t as int));
            }
            s
        }
    } else {
        dec_u128(t as u128)
    }
}

/// Law: a token count below one thousand displays as the bare number,
/// with no suffix.
pub proof fn lemma_tokens_display_small(t: int)
    requires
        0 <= t < 1000,
    ensures
        spec_tokens_display(t) == spec_dec(t),
{
}

/// Law: an exact multiple of one thousand displays as the quotient with a
/// "k" suffix and no decimal point.
pub proof fn lemma_tokens_display_whole_k(t: int)
    requires
        t >= 1000,
        t % 1000 == 0,
    ensures
        spec_tokens_display(t) == spec_dec(t / 1000).add(seq!['k']),
{
}

/// What the Usage segment shows for a transcript: the gauge icon, the
/// percentage of the 200000-token context window, and the token count.
pub open spec fn spec_usage_render(entries: Seq<TranscriptEntry>) -> Seq<char> {
    "\u{f49b} "@.add(spec_percent_display(spec_transcript_tokens(entries))).add("% · "@).add(
        spec_tokens_display(spec_transcript_tokens(entries)),
    ).add(" tokens"@)
}

/// The Usage segment: reports how much of the context window the most
/// recent assistant turn consumed.
pub struct UsageSegment {
    pub enabled: bool,
}

impl UsageSegment {
    pub fn new(enabled: bool) -> (s: UsageSegment)
        ensures
            s.enabled == enabled,
    {
        UsageSegment { enabled }
    }

    /// The canonical identifier used for accounting dispatch.
    pub fn extract_model_name(model_display: &str) -> (r: &'static str)
        ensures
            r@ == spec_resolve_model(model_display@),
    {
        resolve_model_name(model_display)
    }

    /// The model-family-dispatched token figure for one usage record.
    pub fn calculate_tokens_for_model(&self, usage: &Usage, model_name: &str) -> (r: u64)
        ensures
            r as int == spec_tokens_for_model(*usage, model_name@),
    {
        if str_eq_check(model_name, "glm-4.5") || str_eq_check(model_name, "glm-4") {
            match usage.total_tokens {
                Some(t) => if t > 0 {
                    t as u64
                } else {
                    opt_u64(usage.input_tokens) + opt_u64(usage.output_tokens)
                },
                None => opt_u64(usage.input_tokens) + opt_u64(usage.output_tokens),
            }
        } else if str_eq_check(model_name, "3-5-sonnet-20241022") || str_eq_check(
            model_name,
            "3-haiku-20240307",
        ) {
            opt_u64(usage.input_tokens) + opt_u64(usage.cache_creation_input_tokens) + opt_u64(
                usage.cache_read_input_tokens,
            )
        } else if str_eq_check(model_name, "gpt-4") || str_eq_check(model_name, "gpt-3.5-turbo") {
            opt_u64(usage.input_tokens) + opt_u64(usage.output_tokens)
        } else {
            opt_u64(usage.input_tokens) + opt_u64(usage.cache_creation_input_tokens) + opt_u64(
                usage.cache_read_input_tokens,
            )
        }
    }

    /// Renders the Usage segment over the transcript entries; the empty
    /// string when the segment is disabled.
    pub fn render(&self, entries: &Vec<TranscriptEntry>) -> (r: String)
        ensures
            self.enabled ==> r@ == spec_usage_render(entries@),
            !self.enabled ==> r@ == Seq::<char>::empty(),
    {
        if !self.enabled {
            return String::new();
        }
        let t = parse_transcript_usage(entries);
        let mut s = "\u{f49b} ".to_owned();
        let pct = percent_display(t);
        s.append(pct.as_str());
        s.append("% · ");
        let tok = tokens_display(t);
        s.append(tok.as_str());
        s.append(" tokens");
        proof {
            assert(s@ =~= spec_usage_render(entries@));
        }
        s
    }

    pub fn enabled(&self) -> (r: bool)
        ensures
            r == self.enabled,
    {
        self.enabled
    }
}

} // verus!
