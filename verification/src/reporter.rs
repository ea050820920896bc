use crate::cluster::{service_url, service_url_text};
use crate::system::{run_end, run_len};
use crate::text::{chars_of, decimal, push_decimal, str_eq, string_of, trim_bounds, trimmed};
use vstd::prelude::*;

verus! {

/// Seconds between two reports.
pub const REPORT_INTERVAL_SECS: u64 = 60;

/// Every tick of this number registers the node anew.
pub const REREGISTER_EVERY: u64 = 5;

/// What a registration declares of the node, kept for the registrations
/// that follow the first.
#[derive(Debug, Clone)]
pub struct RegistrationParams {
    pub model: String,
    pub http_port: u16,
    pub ram_mb: u64,
    pub vram_mb: u64,
    pub device: String,
    pub external_ip: String,
    pub can_distribute: bool,
    pub lan_ip: String,
}

/// The counters that the engine reports.
#[derive(Debug, Clone, Copy, PartialEq, Eq, Structural)]
pub struct MetricsSnapshot {
    pub total_tokens: u64,
    pub total_requests: u64,
    pub prompt_tokens: u64,
    pub uptime: u64,
    pub slots_processing: u64,
}

impl MetricsSnapshot {
    /// Counters that are all zero: what is reported to keep the node's
    /// assignment alive when the engine's counters cannot be had.
    pub open spec fn zero() -> MetricsSnapshot {
        MetricsSnapshot {
            total_tokens: 0,
            total_requests: 0,
            prompt_tokens: 0,
            uptime: 0,
            slots_processing: 0,
        }
    }
}

/// What is reported at a tick: the engine's counters where they could be
/// fetched, else zeros. A failed fetch never leaves a tick without report.
pub open spec fn reported(fetched: Option<MetricsSnapshot>) -> MetricsSnapshot {
    match fetched {
        Some(metrics) => metrics,
        None => MetricsSnapshot::zero(),
    }
}

/// Chooses what is reported at a tick.
pub fn metrics_to_report(fetched: Option<MetricsSnapshot>) -> (metrics: MetricsSnapshot)
    ensures
        metrics == reported(fetched),
{
    match fetched {
        Some(metrics) => metrics,
        None => MetricsSnapshot {
            total_tokens: 0,
            total_requests: 0,
            prompt_tokens: 0,
            uptime: 0,
            slots_processing: 0,
        },
    }
}

/// What a tick of the reporter calls for.
#[derive(Debug, Clone, Copy, PartialEq, Eq, Structural)]
pub struct TickPlan {
    /// Register the node anew, and report it ready again if that succeeds,
    /// before the counters are reported.
    pub reregister: bool,
    /// Report the counters. Every tick does.
    pub report: bool,
}

/// The periodic reporter of one running session. It counts its ticks up to
/// the next registration.
#[derive(Debug, Clone, Copy, PartialEq, Eq, Structural)]
pub struct Reporter {
    pub since_register: u64,
}

impl Reporter {
    /// The count stays below `REREGISTER_EVERY`.
    pub open spec fn wf(self) -> bool {
        self.since_register < REREGISTER_EVERY
    }

    /// The reporter of a session that has just begun.
    pub open spec fn fresh() -> Reporter {
        Reporter { since_register: 0 }
    }

    /// The reporter after one more tick.
    pub open spec fn ticked(self) -> Reporter {
        Reporter {
            since_register: if self.since_register + 1 >= REREGISTER_EVERY {
                0
            } else {
                (self.since_register + 1) as u64
            },
        }
    }

    /// The reporter after `ticks` ticks.
    pub open spec fn after_ticks(self, ticks: nat) -> Reporter
        decreases ticks,
    {
        if ticks == 0 {
            self
        } else {
            self.after_ticks((ticks - 1) as nat).ticked()
        }
    }

    /// The reporter of a session that has just begun.
    pub fn new() -> (reporter: Reporter)
        ensures
            reporter == Reporter::fresh(),
            reporter.wf(),
    {
        Reporter { since_register: 0 }
    }

    /// The interval has elapsed once more. The plan says what this tick
    /// calls for.
    pub fn on_tick(&mut self) -> (plan: TickPlan)
        ensures
            *final(self) == old(self).ticked(),
            plan.reregister == (final(self).since_register == 0),
            plan.report,
            final(self).wf(),
    {
        if self.since_register >= REREGISTER_EVERY - 1 {
            self.since_register = 0;
        } else {
            self.since_register = self.since_register + 1;
        }
        TickPlan { reregister: self.since_register == 0, report: true }
    }
}

/// Counted from the start of a session, exactly the ticks whose number is a
/// multiple of `REREGISTER_EVERY` register the node anew: the fifth, the
/// tenth, and so on.
pub proof fn lemma_reregisters_every_fifth(ticks: nat)
    ensures
        Reporter::fresh().after_ticks(ticks).since_register == ticks % (REREGISTER_EVERY as nat),
        ticks > 0 ==> (Reporter::fresh().after_ticks(ticks).since_register == 0 <==> ticks % (
        REREGISTER_EVERY as nat) == 0),
    decreases ticks,
{
    if ticks > 0 {
        lemma_reregisters_every_fifth((ticks - 1) as nat);
    }
}

/// The text that a report signs: address, tokens, requests and timestamp,
/// with colons between them.
pub open spec fn report_message_text(
    address: Seq<char>,
    metrics: MetricsSnapshot,
    timestamp: u64,
) -> Seq<char> {
    address + ":"@ + decimal(metrics.total_tokens as nat) + ":"@ + decimal(
        metrics.total_requests as nat,
    ) + ":"@ + decimal(timestamp as nat)
}

/// Builds the text that a report signs.
pub fn report_message(address: &str, metrics: &MetricsSnapshot, timestamp: u64) -> (text: String)
    ensures
        text@ == report_message_text(address@, *metrics, timestamp),
{
    let mut text = address.to_owned();
    text.append(":");
    push_decimal(&mut text, metrics.total_tokens);
    text.append(":");
    push_decimal(&mut text, metrics.total_requests);
    text.append(":");
    push_decimal(&mut text, timestamp);
    text
}

/// The address at which reports are filed.
pub fn report_url(oracle_url: &str) -> (url: String)
    ensures
        url@ == service_url_text(oracle_url@, "/api/v1/metrics/report"@),
{
    service_url(oracle_url, "/api/v1/metrics/report")
}


/// A counter of the engine that the agent reads.
#[derive(Debug, Clone, Copy, PartialEq, Eq, Structural)]
pub enum MetricKind {
    /// Tokens generated so far.
    TokensPredicted,
    /// Prompt tokens processed so far.
    PromptTokens,
    /// Requests being processed now.
    RequestsProcessing,
    /// Seconds spent on prompts so far.
    PromptSeconds,
    /// Seconds spent generating so far.
    PredictedSeconds,
}

/// The counter that a name of the engine's exposition stands for, written
/// with a colon or an underscore behind its prefix.
pub open spec fn kind_of_name(name: Seq<char>) -> Option<MetricKind> {
    if name == "llamacpp:tokens_predicted_total"@ || name == "llamacpp_tokens_predicted_total"@ {
        Some(MetricKind::TokensPredicted)
    } else if name == "llamacpp:prompt_tokens_processed_total"@ || name
        == "llamacpp_prompt_tokens_processed_total"@ {
        Some(MetricKind::PromptTokens)
    } else if name == "llamacpp:requests_processing"@ || name == "llamacpp_requests_processing"@ {
        Some(MetricKind::RequestsProcessing)
    } else if name == "llamacpp:prompt_seconds_total"@ || name == "llamacpp_prompt_seconds_total"@ {
        Some(MetricKind::PromptSeconds)
    } else if name == "llamacpp:tokens_predicted_seconds_total"@ || name
        == "llamacpp_tokens_predicted_seconds_total"@ {
        Some(MetricKind::PredictedSeconds)
    } else {
        None
    }
}

/// The name that a line of the exposition gives, the line being without
/// white space around it: what stands before its first opening brace where
/// it has a closing one (nothing where it has no opening one), else what
/// stands before its first blank.
pub open spec fn sample_name(line: Seq<char>) -> Seq<char> {
    if run_len(line, '}') < line.len() {
        if run_len(line, '{') < line.len() {
            line.take(run_len(line, '{') as int)
        } else {
            Seq::empty()
        }
    } else {
        line.take(run_len(line, ' ') as int)
    }
}

/// The numeral that a line of the exposition gives, the line being without
/// white space around it: what stands behind its first closing brace,
/// without the white space around it, or else behind its first blank, and
/// `0` where it has neither.
pub open spec fn sample_numeral(line: Seq<char>) -> Seq<char> {
    if run_len(line, '}') < line.len() {
        trimmed(line.skip(run_len(line, '}') as int + 1))
    } else if run_len(line, ' ') < line.len() {
        line.skip(run_len(line, ' ') as int + 1)
    } else {
        "0"@
    }
}

/// The sample that a line of the engine's exposition gives: which counter
/// it is, and its numeral. A blank line, a comment and a line for any other
/// name give none. Reading the numeral as a number is left to the caller.
pub open spec fn sample_of(line: Seq<char>) -> Option<(MetricKind, Seq<char>)> {
    let l = trimmed(line);
    if l.len() == 0 || l[0] == '#' {
        None
    } else {
        match kind_of_name(sample_name(l)) {
            Some(kind) => Some((kind, sample_numeral(l))),
            None => None,
        }
    }
}

/// A sample, where there is one, as a mathematical value.
pub open spec fn sample_view(sample: Option<(MetricKind, String)>) -> Option<
    (MetricKind, Seq<char>),
> {
    match sample {
        Some((kind, numeral)) => Some((kind, numeral@)),
        None => None,
    }
}

/// Tells which counter a name of the engine's exposition stands for.
pub fn metric_kind(name: &str) -> (kind: Option<MetricKind>)
    ensures
        kind == kind_of_name(name@),
{
    if str_eq(name, "llamacpp:tokens_predicted_total") || str_eq(
        name,
        "llamacpp_tokens_predicted_total",
    ) {
        Some(MetricKind::TokensPredicted)
    } else if str_eq(name, "llamacpp:prompt_tokens_processed_total") || str_eq(
        name,
        "llamacpp_prompt_tokens_processed_total",
    ) {
        Some(MetricKind::PromptTokens)
    } else if str_eq(name, "llamacpp:requests_processing") || str_eq(
        name,
        "llamacpp_requests_processing",
    ) {
        Some(MetricKind::RequestsProcessing)
    } else if str_eq(name, "llamacpp:prompt_seconds_total") || str_eq(
        name,
        "llamacpp_prompt_seconds_total",
    ) {
        Some(MetricKind::PromptSeconds)
    } else if str_eq(name, "llamacpp:tokens_predicted_seconds_total") || str_eq(
        name,
        "llamacpp_tokens_predicted_seconds_total",
    ) {
        Some(MetricKind::PredictedSeconds)
    } else {
        None
    }
}

/// Reads the sample that a line of the engine's exposition gives.
pub fn metric_sample(line: &str) -> (sample: Option<(MetricKind, String)>)
    ensures
        sample_view(sample) == sample_of(line@),
{
    let text = chars_of(line);
    let (s, e) = trim_bounds(text.as_slice(), 0, text.len());
    assert(text@.subrange(0, text@.len() as int) =~= text@);
    let ghost l = text@.subrange(s as int, e as int);
    if s == e || text[s] == '#' {
        return None;
    }
    let close = run_end(text.as_slice(), s, e, '}');
    let (name, numeral) = if close < e {
        let open = run_end(text.as_slice(), s, e, '{');
        let name_end = if open < e {
            open
        } else {
            s
        };
        let (vs, ve) = trim_bounds(text.as_slice(), close + 1, e);
        assert(text@.subrange(close + 1, e as int) =~= l.skip(close - s + 1));
        assert(text@.subrange(s as int, name_end as int) =~= l.take(name_end - s));
        (
            string_of(vstd::slice::slice_subrange(text.as_slice(), s, name_end)),
            string_of(vstd::slice::slice_subrange(text.as_slice(), vs, ve)),
        )
    } else {
        let blank = run_end(text.as_slice(), s, e, ' ');
        assert(text@.subrange(s as int, blank as int) =~= l.take(blank - s));
        let numeral = if blank < e {
            assert(text@.subrange(blank + 1, e as int) =~= l.skip(blank - s + 1));
            string_of(vstd::slice::slice_subrange(text.as_slice(), blank + 1, e))
        } else {
            "0".to_owned()
        };
        (string_of(vstd::slice::slice_subrange(text.as_slice(), s, blank)), numeral)
    };
    assert(name@ == sample_name(l));
    assert(numeral@ == sample_numeral(l));
    match metric_kind(name.as_str()) {
        Some(kind) => Some((kind, numeral)),
        None => None,
    }
}

} // verus!
