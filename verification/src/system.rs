use crate::text::{
    chars_of, contains, find_in, first_at, is_digit, join, joined, lemma_first_at_unique, parse_u64, parsed_u64, push_signed_decimal,
    matches_at, signed_decimal, space_char, starts_with, str_contains, string_of,
    trim_bounds, trimmed, trimmed_end, trimmed_end_len, trimmed_start, views,
};
use crate::llama_bin::{lowercased, to_lowercase};
use crate::text::{decimal, push_decimal, words, words_of};
use vstd::prelude::*;
use vstd::string::*;

verus! {

/// Exit code of a process that could not load a required dynamic library.
pub const EXIT_MISSING_LIBRARY: i32 = -1073741515;

/// Exit code of a process that ended with an access violation.
pub const EXIT_ACCESS_VIOLATION: i32 = -1073741819;

/// The diagnosis shown for an engine exit: a remediation hint for the known
/// platform codes, the code itself for any other, and a note on a signal where
/// the process left no code.
pub open spec fn exit_diagnosis(code: Option<i32>) -> Seq<char> {
    match code {
        Some(c) => if c == EXIT_MISSING_LIBRARY {
            "llama-server failed: Required DLL not found. Please install NVIDIA CUDA Toolkit 12.x or ensure CUDA drivers are up to date."@
        } else if c == EXIT_ACCESS_VIOLATION {
            "llama-server crashed: Access violation. Try reducing GPU layers (gpu_layers=0 for CPU-only mode)."@
        } else {
            "llama-server exited with code "@ + signed_decimal(c as int)
        },
        None => "llama-server was terminated by signal"@,
    }
}

/// Describes an engine exit in words an operator can act on.
pub fn describe_exit_code(code: Option<i32>) -> (text: String)
    ensures
        text@ == exit_diagnosis(code),
{
    match code {
        Some(c) => {
            if c == EXIT_MISSING_LIBRARY {
                "llama-server failed: Required DLL not found. Please install NVIDIA CUDA Toolkit 12.x or ensure CUDA drivers are up to date.".to_owned()
            } else if c == EXIT_ACCESS_VIOLATION {
                "llama-server crashed: Access violation. Try reducing GPU layers (gpu_layers=0 for CPU-only mode).".to_owned()
            } else {
                let mut text = "llama-server exited with code ".to_owned();
                push_signed_decimal(&mut text, c as i64);
                text
            }
        },
        None => "llama-server was terminated by signal".to_owned(),
    }
}


/// A text in upper case, as std's `str::to_uppercase` gives it.
pub uninterp spec fn uppercased(text: Seq<char>) -> Seq<char>;

/// `str::to_uppercase` of std. The result depends on the text alone.
#[verifier::external_body]
pub(crate) fn to_uppercase(text: &str) -> (out: String)
    ensures
        out@ == uppercased(text@),
{
    text.to_uppercase()
}

/// The severity of a log line, read off the line in upper case: an error
/// where it names one, else a warning, else debug output, else information.
pub open spec fn level_of(upper: Seq<char>) -> Seq<char> {
    if contains(upper, "ERROR"@) || contains(upper, "CRITICAL"@) || contains(upper, "FATAL"@) {
        "ERROR"@
    } else if contains(upper, "WARNING"@) || contains(upper, "WARN"@) {
        "WARNING"@
    } else if contains(upper, "DEBUG"@) || contains(upper, "TRACE"@) {
        "DEBUG"@
    } else {
        "INFO"@
    }
}

fn holds(hay: &Vec<char>, needle: &str) -> (found: bool)
    ensures
        found == contains(hay@, needle@),
{
    let n = chars_of(needle);
    find_in(hay.as_slice(), n.as_slice()).is_some()
}

/// The severity of a log line that is already in upper case.
pub fn level_of_upper(upper: &str) -> (level: &'static str)
    ensures
        level@ == level_of(upper@),
{
    let chars = chars_of(upper);
    if holds(&chars, "ERROR") || holds(&chars, "CRITICAL") || holds(&chars, "FATAL") {
        "ERROR"
    } else if holds(&chars, "WARNING") || holds(&chars, "WARN") {
        "WARNING"
    } else if holds(&chars, "DEBUG") || holds(&chars, "TRACE") {
        "DEBUG"
    } else {
        "INFO"
    }
}

/// The severity of a log line of the engine, whatever the case it is written in.
pub fn parse_log_level(line: &str) -> (level: &'static str)
    ensures
        level@ == level_of(uppercased(line@)),
{
    let upper = to_uppercase(line);
    level_of_upper(upper.as_str())
}

/// The number of characters of a secret token: `0x` and 64 hexadecimal digits.
pub const TOKEN_LEN: usize = 66;

/// The characters of a token that stay visible at its start.
pub const TOKEN_HEAD: usize = 6;

/// The characters of a token that stay visible at its end.
pub const TOKEN_TAIL: usize = 4;

/// A hexadecimal digit, in either case.
pub open spec fn is_hex_digit(c: char) -> bool {
    ('0' <= c && c <= '9') || ('a' <= c && c <= 'f') || ('A' <= c && c <= 'F')
}

/// A secret token stands in `text` at position `at`: `0x` and then
/// hexadecimal digits, `TOKEN_LEN` characters in all.
pub open spec fn token_at(text: Seq<char>, at: int) -> bool {
    &&& 0 <= at
    &&& at + TOKEN_LEN <= text.len()
    &&& text[at] == '0'
    &&& text[at + 1] == 'x'
    &&& forall|k: int| 2 <= k < TOKEN_LEN ==> is_hex_digit(#[trigger] text[at + k])
}

/// What stands in place of the hidden part of a token.
pub open spec fn redaction_marker() -> Seq<char> {
    "****...****"@
}

/// A token with all but its first and last characters hidden.
pub open spec fn redacted(token: Seq<char>) -> Seq<char> {
    token.take(TOKEN_HEAD as int) + redaction_marker() + token.skip(TOKEN_LEN - TOKEN_TAIL)
}

/// A line with every secret token redacted, found from the left.
pub open spec fn masked(text: Seq<char>) -> Seq<char>
    decreases text.len(),
{
    if text.len() == 0 {
        text
    } else if token_at(text, 0) {
        redacted(text.take(TOKEN_LEN as int)) + masked(text.skip(TOKEN_LEN as int))
    } else {
        seq![text[0]] + masked(text.skip(1))
    }
}

fn hex_digit_char(c: char) -> (yes: bool)
    ensures
        yes == is_hex_digit(c),
{
    ('0' <= c && c <= '9') || ('a' <= c && c <= 'f') || ('A' <= c && c <= 'F')
}

/// Whether a secret token stands in `text` at position `at`.
pub fn has_token_at(text: &[char], at: usize) -> (found: bool)
    ensures
        found == token_at(text@, at as int),
{
    if at > text.len() || text.len() - at < TOKEN_LEN {
        return false;
    }
    if text[at] != '0' || text[at + 1] != 'x' {
        return false;
    }
    let mut k: usize = 2;
    while k < TOKEN_LEN
        invariant
            2 <= k <= TOKEN_LEN,
            at + TOKEN_LEN <= text.len(),
            forall|j: int| 2 <= j < k ==> is_hex_digit(#[trigger] text@[at + j]),
        decreases TOKEN_LEN - k,
    {
        if !hex_digit_char(text[at + k]) {
            return false;
        }
        k += 1;
    }
    true
}

/// Hides the secret tokens of a log line: each run of `0x` and 64
/// hexadecimal digits keeps its first 6 and last 4 characters around a fixed
/// marker. Everything else is passed through as it is.
pub fn mask_sensitive_data(line: &str) -> (out: String)
    ensures
        out@ == masked(line@),
{
    let text = chars_of(line);
    let mut out: Vec<char> = Vec::new();
    let marker = chars_of("****...****");
    let mut i: usize = 0;
    assert(text@.skip(0) =~= text@);
    assert(out@ + masked(text@) =~= masked(text@));
    while i < text.len()
        invariant
            i <= text.len(),
            marker@ == redaction_marker(),
            out@ + masked(text@.skip(i as int)) == masked(text@),
        decreases text.len() - i,
    {
        let ghost rest = text@.skip(i as int);
        let ghost before = out@;
        if has_token_at(text.as_slice(), i) {
            proof {
                assert(token_at(rest, 0)) by {
                    assert forall|k: int| 2 <= k < TOKEN_LEN implies is_hex_digit(
                        #[trigger] rest[0 + k],
                    ) by {
                        assert(rest[0 + k] == text@[i + k]);
                    }
                }
                assert(rest.skip(TOKEN_LEN as int) =~= text@.skip(i + TOKEN_LEN));
            }
            let ghost token = rest.take(TOKEN_LEN as int);
            let mut k: usize = 0;
            while k < TOKEN_HEAD
                invariant
                    k <= TOKEN_HEAD,
                    i + TOKEN_LEN <= text.len(),
                    out@ == before + token.take(k as int),
                    token == text@.skip(i as int).take(TOKEN_LEN as int),
                decreases TOKEN_HEAD - k,
            {
                out.push(text[i + k]);
                assert(before + token.take(k + 1) =~= (before + token.take(k as int)).push(
                    text@[i + k],
                ));
                k += 1;
            }
            let ghost with_head = out@;
            let mut m: usize = 0;
            while m < marker.len()
                invariant
                    m <= marker.len(),
                    out@ == with_head + marker@.take(m as int),
                decreases marker.len() - m,
            {
                out.push(marker[m]);
                assert(with_head + marker@.take(m + 1) =~= (with_head + marker@.take(
                    m as int,
                )).push(marker@[m as int]));
                m += 1;
            }
            assert(marker@.take(marker@.len() as int) =~= marker@);
            let ghost with_marker = out@;
            let mut t: usize = TOKEN_LEN - TOKEN_TAIL;
            while t < TOKEN_LEN
                invariant
                    TOKEN_LEN - TOKEN_TAIL <= t <= TOKEN_LEN,
                    i + TOKEN_LEN <= text.len(),
                    out@ == with_marker + token.subrange(TOKEN_LEN - TOKEN_TAIL, t as int),
                    token == text@.skip(i as int).take(TOKEN_LEN as int),
                decreases TOKEN_LEN - t,
            {
                out.push(text[i + t]);
                assert(with_marker + token.subrange(TOKEN_LEN - TOKEN_TAIL, t + 1) =~= (
                with_marker + token.subrange(TOKEN_LEN - TOKEN_TAIL, t as int)).push(
                    text@[i + t],
                ));
                t += 1;
            }
            assert(token.subrange(TOKEN_LEN - TOKEN_TAIL, TOKEN_LEN as int) =~= token.skip(
                TOKEN_LEN - TOKEN_TAIL,
            ));
            i += TOKEN_LEN;
            assert(out@ =~= before + redacted(token));
            assert(out@ + masked(text@.skip(i as int)) =~= before + masked(rest));
        } else {
            proof {
                assert(!token_at(rest, 0)) by {
                    if token_at(rest, 0) {
                        assert forall|k: int| 2 <= k < TOKEN_LEN implies is_hex_digit(
                            #[trigger] text@[i + k],
                        ) by {
                            assert(rest[0 + k] == text@[i + k]);
                        }
                    }
                }
                assert(rest.skip(1) =~= text@.skip(i + 1));
            }
            out.push(text[i]);
            i += 1;
            assert(out@ + masked(text@.skip(i as int)) =~= before + masked(rest));
        }
    }
    assert(out@ + masked(text@.skip(i as int)) =~= out@);
    string_of(out.as_slice())
}

/// A line in which no secret token stands is passed through unchanged.
pub proof fn lemma_mask_without_token(text: Seq<char>)
    requires
        forall|at: int| !token_at(text, at),
    ensures
        masked(text) == text,
    decreases text.len(),
{
    if text.len() > 0 {
        assert(!token_at(text, 0));
        let rest = text.skip(1);
        assert forall|at: int| !token_at(rest, at) by {
            if token_at(rest, at) {
                assert forall|k: int| 2 <= k < TOKEN_LEN implies is_hex_digit(
                    #[trigger] text[at + 1 + k],
                ) by {
                    assert(rest[at + k] == text[at + 1 + k]);
                }
                assert(token_at(text, at + 1));
            }
        }
        lemma_mask_without_token(rest);
        assert(seq![text[0]] + rest =~= text);
    }
}

/// Where the first secret token of a line stands at `at`, the line is
/// rewritten to what stands before the token, the token's first 6
/// characters, the marker, the token's last 4 characters, and the masked
/// rest of the line.
pub proof fn lemma_mask_first_token(text: Seq<char>, at: int)
    requires
        token_at(text, at),
        forall|before: int| 0 <= before < at ==> !token_at(text, before),
    ensures
        masked(text) == text.take(at) + text.subrange(at, at + TOKEN_HEAD)
            + redaction_marker() + text.subrange(
            at + TOKEN_LEN - TOKEN_TAIL,
            at + TOKEN_LEN,
        ) + masked(text.skip(at + TOKEN_LEN)),
    decreases at,
{
    if at == 0 {
        let token = text.take(TOKEN_LEN as int);
        assert(token.take(TOKEN_HEAD as int) =~= text.subrange(0, TOKEN_HEAD as int));
        assert(token.skip(TOKEN_LEN - TOKEN_TAIL) =~= text.subrange(
            TOKEN_LEN - TOKEN_TAIL,
            TOKEN_LEN as int,
        ));
        assert(text.take(0) + text.subrange(0, TOKEN_HEAD as int) =~= text.subrange(
            0,
            TOKEN_HEAD as int,
        ));
    } else {
        let rest = text.skip(1);
        assert(!token_at(text, 0));
        assert(token_at(rest, at - 1)) by {
            assert forall|k: int| 2 <= k < TOKEN_LEN implies is_hex_digit(
                #[trigger] rest[at - 1 + k],
            ) by {
                assert(rest[at - 1 + k] == text[at + k]);
            }
        }
        assert forall|before: int| 0 <= before < at - 1 implies !token_at(rest, before) by {
            if token_at(rest, before) {
                assert forall|k: int| 2 <= k < TOKEN_LEN implies is_hex_digit(
                    #[trigger] text[before + 1 + k],
                ) by {
                    assert(rest[before + k] == text[before + 1 + k]);
                }
                assert(token_at(text, before + 1));
            }
        }
        lemma_mask_first_token(rest, at - 1);
        assert(seq![text[0]] + rest.take(at - 1) =~= text.take(at));
        assert(rest.subrange(at - 1, at - 1 + TOKEN_HEAD) =~= text.subrange(
            at,
            at + TOKEN_HEAD,
        ));
        assert(rest.subrange(at - 1 + TOKEN_LEN - TOKEN_TAIL, at - 1 + TOKEN_LEN)
            =~= text.subrange(at + TOKEN_LEN - TOKEN_TAIL, at + TOKEN_LEN));
        assert(rest.skip(at - 1 + TOKEN_LEN) =~= text.skip(at + TOKEN_LEN));
        assert(masked(text) =~= seq![text[0]] + masked(rest));
    }
}


/// The number of decimal places of the currency's smallest unit.
pub const WEI_DECIMALS: usize = 18;

/// The fewest decimal places that an amount is shown with.
pub const MIN_SHOWN_DECIMALS: usize = 4;

/// `text` with zeros before it until it has `width` characters.
pub open spec fn zero_padded(text: Seq<char>, width: nat) -> Seq<char> {
    if text.len() >= width {
        text
    } else {
        Seq::new((width - text.len()) as nat, |i: int| '0') + text
    }
}

/// An amount in the smallest unit, shown in whole units: the digits before
/// the last 18 (at least one), a point, and the last 18 without their
/// trailing zeros, but never fewer than four of them.
pub open spec fn wei_display(wei: Seq<char>) -> Seq<char> {
    let padded = zero_padded(wei, (WEI_DECIMALS + 1) as nat);
    let split = padded.len() - WEI_DECIMALS;
    let fraction = padded.skip(split);
    let short = trimmed_end(fraction, '0');
    padded.take(split) + "."@ + if short.len() < MIN_SHOWN_DECIMALS {
        fraction.take(MIN_SHOWN_DECIMALS as int)
    } else {
        short
    }
}

/// Shows an amount, given in the smallest unit as a decimal numeral, in
/// whole units.
pub fn wei_to_display(wei_str: &str) -> (out: String)
    ensures
        out@ == wei_display(wei_str@),
{
    let digits = chars_of(wei_str);
    let mut padded: Vec<char> = Vec::new();
    if digits.len() < WEI_DECIMALS + 1 {
        let missing: usize = WEI_DECIMALS + 1 - digits.len();
        let mut k: usize = 0;
        while k < missing
            invariant
                k <= missing,
                padded@ == Seq::new(k as nat, |i: int| '0'),
            decreases missing - k,
        {
            padded.push('0');
            assert(padded@ =~= Seq::new((k + 1) as nat, |i: int| '0'));
            k += 1;
        }
    }
    let ghost zeros = padded@;
    let mut j: usize = 0;
    while j < digits.len()
        invariant
            j <= digits.len(),
            padded@ == zeros + digits@.take(j as int),
        decreases digits.len() - j,
    {
        padded.push(digits[j]);
        assert(zeros + digits@.take(j + 1) =~= (zeros + digits@.take(j as int)).push(
            digits@[j as int],
        ));
        j += 1;
    }
    assert(digits@.take(digits@.len() as int) =~= digits@);
    assert(padded@ =~= zero_padded(wei_str@, (WEI_DECIMALS + 1) as nat));
    let split: usize = padded.len() - WEI_DECIMALS;
    let whole = vstd::slice::slice_subrange(padded.as_slice(), 0, split);
    let fraction = vstd::slice::slice_subrange(padded.as_slice(), split, padded.len());
    assert(whole@ =~= padded@.take(split as int));
    assert(fraction@ =~= padded@.skip(split as int));
    let short_len = trimmed_end_len(fraction, '0');
    let shown = if short_len < MIN_SHOWN_DECIMALS {
        let head = vstd::slice::slice_subrange(fraction, 0, MIN_SHOWN_DECIMALS);
        assert(head@ =~= fraction@.take(MIN_SHOWN_DECIMALS as int));
        head
    } else {
        let head = vstd::slice::slice_subrange(fraction, 0, short_len);
        assert(head@ =~= fraction@.take(short_len as int));
        head
    };
    let mut out = string_of(whole);
    out.append(".");
    out.append(string_of(shown).as_str());
    out
}

/// The number of characters of `text` before the first `stop`, or all of
/// them where there is none.
pub open spec fn run_len(text: Seq<char>, stop: char) -> nat
    decreases text.len(),
{
    if text.len() == 0 || text[0] == stop {
        0
    } else {
        1 + run_len(text.skip(1), stop)
    }
}

/// The end of the run that begins at `from` and stops before the first
/// `stop` or at `to`.
pub fn run_end(text: &[char], from: usize, to: usize, stop: char) -> (end: usize)
    requires
        from <= to <= text.len(),
    ensures
        from <= end <= to,
        end - from == run_len(text@.subrange(from as int, to as int), stop),
{
    let mut end: usize = from;
    let ghost part = text@.subrange(from as int, to as int);
    assert(text@.subrange(from as int, to as int) =~= part);
    while end < to && text[end] != stop
        invariant
            from <= end <= to <= text.len(),
            run_len(part, stop) == (end - from) + run_len(
                text@.subrange(end as int, to as int),
                stop,
            ),
        decreases to - end,
    {
        assert(text@.subrange(end as int, to as int).skip(1) =~= text@.subrange(
            end + 1,
            to as int,
        ));
        end += 1;
    }
    end
}

/// The name and memory, in megabytes, of the first graphics processor that
/// a query lists as `name, memory`: nothing where the first line holds no
/// comma or no name; a memory that cannot be read counts as zero.
pub open spec fn gpu_of_listing(listing: Seq<char>) -> Option<(Seq<char>, u64)> {
    let line = trimmed(listing.take(run_len(listing, '\n') as int));
    let name_len = run_len(line, ',');
    let name = trimmed(line.take(name_len as int));
    if name_len >= line.len() || name.len() == 0 {
        None
    } else {
        Some(
            (
                name,
                match parsed_u64(trimmed(line.skip(name_len as int + 1))) {
                    Some(memory) => memory,
                    None => 0,
                },
            ),
        )
    }
}

/// What a query for graphics processors found, as a mathematical value.
pub open spec fn gpu_view(gpu: Option<(String, u64)>) -> Option<(Seq<char>, u64)> {
    match gpu {
        Some((name, memory)) => Some((name@, memory)),
        None => None,
    }
}

/// The first graphics processor of the machine, from the listing that the
/// vendor's query tool printed; `None` stands for a query that failed.
pub fn detect_gpu(listing: Option<&str>) -> (gpu: Option<(String, u64)>)
    ensures
        gpu_view(gpu) == match listing {
            Some(text) => gpu_of_listing(text@),
            None => None,
        },
{
    let text = match listing {
        Some(t) => chars_of(t),
        None => {
            return None;
        },
    };
    let line_end = run_end(text.as_slice(), 0, text.len(), '\n');
    assert(text@.subrange(0, text@.len() as int) =~= text@);
    let (start, end) = trim_bounds(text.as_slice(), 0, line_end);
    let ghost line = text@.subrange(start as int, end as int);
    assert(text@.subrange(0, line_end as int) =~= text@.take(line_end as int));
    let comma = run_end(text.as_slice(), start, end, ',');
    if comma >= end {
        return None;
    }
    let (name_start, name_end) = trim_bounds(text.as_slice(), start, comma);
    assert(text@.subrange(start as int, comma as int) =~= line.take(comma - start));
    if name_end == name_start {
        return None;
    }
    let (mem_start, mem_end) = trim_bounds(text.as_slice(), comma + 1, end);
    assert(text@.subrange(comma + 1, end as int) =~= line.skip(comma - start + 1));
    let memory = match parse_u64(
        vstd::slice::slice_subrange(text.as_slice(), mem_start, mem_end),
    ) {
        Some(m) => m,
        None => 0,
    };
    let name = string_of(vstd::slice::slice_subrange(text.as_slice(), name_start, name_end));
    Some((name, memory))
}


/// A process name is the engine's where it holds the engine binary's name,
/// written with a hyphen or with an underscore.
pub open spec fn is_engine_name(name: Seq<char>) -> bool {
    contains(name, "llama-server"@) || contains(name, "llama_server"@)
}

/// Whether a process name is the engine's.
pub fn is_engine_process(name: &str) -> (yes: bool)
    ensures
        yes == is_engine_name(name@),
{
    str_contains(name, "llama-server") || str_contains(name, "llama_server")
}

/// The lines of a text that hold more than white space, each without the
/// white space around it.
pub open spec fn nonblank_lines(text: Seq<char>) -> Seq<Seq<char>>
    decreases text.len(),
{
    if text.len() == 0 {
        Seq::empty()
    } else {
        let n = run_len(text, '\n');
        let line = trimmed(text.take(n as int));
        let rest = if n < text.len() {
            text.skip(n as int + 1)
        } else {
            Seq::empty()
        };
        if line.len() > 0 {
            seq![line] + nonblank_lines(rest)
        } else {
            nonblank_lines(rest)
        }
    }
}

/// The process ids that a listing of a port's holders names, one to a line.
pub fn listed_pids(listing: &str) -> (pids: Vec<String>)
    ensures
        views(pids@) == nonblank_lines(listing@),
{
    let text = chars_of(listing);
    let mut pids: Vec<String> = Vec::new();
    let mut at: usize = 0;
    assert(text@.skip(0) =~= text@);
    assert(views(pids@) =~= Seq::<Seq<char>>::empty());
    while at < text.len()
        invariant
            at <= text.len(),
            views(pids@) + nonblank_lines(text@.skip(at as int)) == nonblank_lines(text@),
        decreases text.len() - at,
    {
        let ghost rest = text@.skip(at as int);
        let ghost before = views(pids@);
        let end = run_end(text.as_slice(), at, text.len(), '\n');
        assert(text@.subrange(at as int, text@.len() as int) =~= rest);
        let (start, stop) = trim_bounds(text.as_slice(), at, end);
        assert(text@.subrange(at as int, end as int) =~= rest.take(end - at));
        if stop > start {
            let pid = string_of(vstd::slice::slice_subrange(text.as_slice(), start, stop));
            pids.push(pid);
            assert(views(pids@) =~= before + seq![trimmed(rest.take(end - at))]);
        }
        if end < text.len() {
            assert(rest.skip(end - at + 1) =~= text@.skip(end + 1));
            at = end + 1;
        } else {
            assert(text@.skip(text@.len() as int) =~= Seq::<char>::empty());
            at = text.len();
        }
        assert(views(pids@) + nonblank_lines(text@.skip(at as int)) =~= before + nonblank_lines(
            rest,
        ));
    }
    assert(views(pids@) + nonblank_lines(text@.skip(at as int)) =~= views(pids@));
    pids
}

/// A process that holds the engine's port.
#[derive(Debug, Clone)]
pub struct PortHolder {
    pub pid: String,
    pub name: String,
}

/// What is done about the holders of the engine's port.
#[derive(Debug, Clone)]
pub struct PortSweep {
    /// The process ids to terminate.
    pub kill: Vec<String>,
    /// The terminated processes in words; none where nothing is terminated.
    pub report: Option<String>,
}

/// How a terminated holder is named in the report.
pub open spec fn holder_label(pid: Seq<char>, name: Seq<char>) -> Seq<char> {
    "PID "@ + pid + " ("@ + name + ")"@
}

/// The ids of the holders that are stale engines, in the order listed.
pub open spec fn stale_engines(holders: Seq<PortHolder>) -> Seq<Seq<char>>
    decreases holders.len(),
{
    if holders.len() == 0 {
        Seq::empty()
    } else if is_engine_name(holders.last().name@) {
        stale_engines(holders.drop_last()).push(holders.last().pid@)
    } else {
        stale_engines(holders.drop_last())
    }
}

/// The labels of the holders that are stale engines, in the order listed.
pub open spec fn stale_labels(holders: Seq<PortHolder>) -> Seq<Seq<char>>
    decreases holders.len(),
{
    if holders.len() == 0 {
        Seq::empty()
    } else if is_engine_name(holders.last().name@) {
        stale_labels(holders.drop_last()).push(
            holder_label(holders.last().pid@, holders.last().name@),
        )
    } else {
        stale_labels(holders.drop_last())
    }
}

/// Decides what is done about the holders of the engine's port before a
/// launch: a holder whose name is the engine's is a stale engine and is
/// terminated; any other is left alone, so that the launch fails on the port
/// rather than an unrelated process being harmed.
pub fn sweep_port(holders: &Vec<PortHolder>) -> (sweep: PortSweep)
    ensures
        views(sweep.kill@) == stale_engines(holders@),
        sweep.report is Some <==> stale_engines(holders@).len() > 0,
        sweep.report matches Some(text) ==> text@ == joined(stale_labels(holders@), ", "@),
{
    let mut kill: Vec<String> = Vec::new();
    let mut labels: Vec<String> = Vec::new();
    let mut i: usize = 0;
    assert(holders@.take(0) =~= Seq::<PortHolder>::empty());
    assert(views(kill@) =~= Seq::<Seq<char>>::empty());
    assert(views(labels@) =~= Seq::<Seq<char>>::empty());
    while i < holders.len()
        invariant
            i <= holders.len(),
            kill@.len() == labels@.len(),
            views(kill@) == stale_engines(holders@.take(i as int)),
            views(labels@) == stale_labels(holders@.take(i as int)),
        decreases holders.len() - i,
    {
        let ghost killed = views(kill@);
        let ghost named = views(labels@);
        assert(holders@.take(i + 1).drop_last() =~= holders@.take(i as int));
        let holder = &holders[i];
        if is_engine_process(holder.name.as_str()) {
            let mut label = "PID ".to_owned();
            label.append(holder.pid.as_str());
            label.append(" (");
            label.append(holder.name.as_str());
            label.append(")");
            kill.push(holder.pid.clone());
            labels.push(label);
            assert(views(kill@) =~= killed.push(holder.pid@));
            assert(views(labels@) =~= named.push(holder_label(holder.pid@, holder.name@)));
        }
        i += 1;
    }
    assert(holders@.take(holders@.len() as int) =~= holders@);
    assert(views(kill@).len() == kill@.len());
    let report = if kill.len() > 0 {
        Some(join(&labels, ", "))
    } else {
        None
    };
    PortSweep { kill, report }
}

/// Only stale engines are terminated: every process id that a sweep names
/// belongs to a holder whose name is the engine's.
pub proof fn lemma_sweep_spares_others(holders: Seq<PortHolder>)
    ensures
        forall|k: int|
            0 <= k < stale_engines(holders).len() ==> exists|j: int|
                0 <= j < holders.len() && is_engine_name(holders[j].name@) && holders[j].pid@
                    == #[trigger] stale_engines(holders)[k],
        (forall|j: int| 0 <= j < holders.len() ==> !is_engine_name(#[trigger] holders[j].name@))
            ==> stale_engines(holders).len() == 0,
    decreases holders.len(),
{
    if holders.len() > 0 {
        let front = holders.drop_last();
        lemma_sweep_spares_others(front);
        assert forall|k: int| 0 <= k < stale_engines(holders).len() implies exists|j: int|
            0 <= j < holders.len() && is_engine_name(holders[j].name@) && holders[j].pid@
                == #[trigger] stale_engines(holders)[k] by {
            if k < stale_engines(front).len() {
                let j = choose|j: int|
                    0 <= j < front.len() && is_engine_name(front[j].name@) && front[j].pid@
                        == stale_engines(front)[k];
                assert(holders[j] == front[j]);
            } else {
                assert(holders[holders.len() - 1] == holders.last());
            }
        }
        assert forall|j: int| 0 <= j < front.len() implies holders[j] == front[j] by {}
    }
}


/// What a progress mark of the engine's log speaks of.
#[derive(Debug, Clone, Copy, PartialEq, Eq, Structural)]
pub enum ProgressPhase {
    Loading,
    Downloading,
}

/// The numerals of a log line that may tell of progress: the text behind
/// the engine's own progress key, to be read as a fraction of one, and the
/// numeral before the first percent sign of a line that speaks of loading or
/// downloading, to be read as a percentage. Whether a text is a number is
/// for the reader of the marks to say; the fraction is tried first.
#[derive(Debug, Clone)]
pub struct ProgressMarks {
    pub fraction: Option<String>,
    pub percent: Option<(String, ProgressPhase)>,
}

/// The key behind which the engine writes how much of the model is loaded.
pub open spec fn progress_key() -> Seq<char> {
    "llm_load_progress:"@
}

/// The text behind the first progress key of a line, without the white
/// space around it.
pub open spec fn fraction_mark(line: Seq<char>) -> Option<Seq<char>> {
    if contains(line, progress_key()) {
        Some(trimmed(line.skip(first_at(line, progress_key()) + progress_key().len())))
    } else {
        None
    }
}

/// The digits and points that end a text.
pub open spec fn numeral_suffix(text: Seq<char>) -> Seq<char>
    decreases text.len(),
{
    if text.len() > 0 && (is_digit(text.last()) || text.last() == '.') {
        numeral_suffix(text.drop_last()).push(text.last())
    } else {
        Seq::empty()
    }
}

/// The phase that a line speaks of: downloading where it says so, else loading.
pub open spec fn phase_of(line: Seq<char>) -> ProgressPhase {
    if contains(line, "Download"@) {
        ProgressPhase::Downloading
    } else {
        ProgressPhase::Loading
    }
}

/// The numeral before the first percent sign of a line that speaks of
/// loading or downloading, with the phase that the line speaks of.
pub open spec fn percent_mark(line: Seq<char>) -> Option<(Seq<char>, ProgressPhase)> {
    if (contains(line, "Loading"@) || contains(line, "Downloading"@)) && run_len(line, '%')
        < line.len() {
        Some((numeral_suffix(line.take(run_len(line, '%') as int)), phase_of(line)))
    } else {
        None
    }
}

/// A percent mark, where there is one, as a mathematical value.
pub open spec fn percent_view(mark: Option<(String, ProgressPhase)>) -> Option<
    (Seq<char>, ProgressPhase),
> {
    match mark {
        Some((numeral, phase)) => Some((numeral@, phase)),
        None => None,
    }
}

/// Where the digits and points that end `text[..end]` begin.
fn numeral_start(text: &[char], end: usize) -> (start: usize)
    requires
        end <= text.len(),
    ensures
        start <= end,
        text@.subrange(start as int, end as int) == numeral_suffix(text@.take(end as int)),
{
    let mut start: usize = end;
    let ghost whole = text@.take(end as int);
    assert(text@.subrange(end as int, end as int) =~= Seq::<char>::empty());
    while start > 0 && (('0' <= text[start - 1] && text[start - 1] <= '9') || text[start - 1]
        == '.')
        invariant
            start <= end <= text.len(),
            whole == text@.take(end as int),
            numeral_suffix(whole) == numeral_suffix(text@.take(start as int)) + text@.subrange(
                start as int,
                end as int,
            ),
        decreases start,
    {
        let ghost head = text@.take(start as int);
        assert(head.drop_last() =~= text@.take(start - 1));
        assert(head.last() == text@[start - 1]);
        assert(numeral_suffix(head.drop_last()).push(head.last()) + text@.subrange(
            start as int,
            end as int,
        ) =~= numeral_suffix(head.drop_last()) + text@.subrange(start - 1, end as int));
        start -= 1;
    }
    proof {
        let head = text@.take(start as int);
        assert(numeral_suffix(head) =~= Seq::<char>::empty());
        assert(Seq::<char>::empty() + text@.subrange(start as int, end as int)
            =~= text@.subrange(start as int, end as int));
    }
    start
}

/// Finds the numerals of a log line that may tell of progress.
pub fn progress_marks(line: &str) -> (marks: ProgressMarks)
    ensures
        crate::text::opt_view(marks.fraction) == fraction_mark(line@),
        percent_view(marks.percent) == percent_mark(line@),
{
    proof {
        reveal_strlit("llm_load_progress:");
    }
    let text = chars_of(line);
    let key = chars_of("llm_load_progress:");
    let fraction = match find_in(text.as_slice(), key.as_slice()) {
        Some(at) => {
            proof {
                lemma_first_at_unique(text@, key@, at as int);
            }
            let total = text.len();
            let skipped = key.len();
            assert(at + skipped <= total);
            let from = at + skipped;
            let (start, end) = trim_bounds(text.as_slice(), from, total);
            assert(text@.subrange(at + key@.len(), text@.len() as int) =~= text@.skip(
                at + key@.len(),
            ));
            Some(string_of(vstd::slice::slice_subrange(text.as_slice(), start, end)))
        },
        None => None,
    };
    let speaks = holds(&text, "Loading") || holds(&text, "Downloading");
    let sign = run_end(text.as_slice(), 0, text.len(), '%');
    assert(text@.subrange(0, text@.len() as int) =~= text@);
    let percent = if speaks && sign < text.len() {
        let start = numeral_start(text.as_slice(), sign);
        let numeral = string_of(vstd::slice::slice_subrange(text.as_slice(), start, sign));
        let phase = if holds(&text, "Download") {
            ProgressPhase::Downloading
        } else {
            ProgressPhase::Loading
        };
        Some((numeral, phase))
    } else {
        None
    };
    ProgressMarks { fraction, percent }
}


/// The key behind which a hardware listing names the graphics chipset.
pub open spec fn chipset_key() -> Seq<char> {
    "Chipset Model:"@
}

/// The second of the fields that colons part a line into.
pub open spec fn second_field(line: Seq<char>) -> Seq<char> {
    let tail = line.skip(run_len(line, ':') as int + 1);
    tail.take(run_len(tail, ':') as int)
}

/// The chipset that a hardware listing names: the second field, without
/// the white space around it, of the first line that begins with the
/// chipset key after any white space.
pub open spec fn chipset_of(listing: Seq<char>) -> Option<Seq<char>>
    decreases listing.len(),
{
    if listing.len() == 0 {
        None
    } else {
        let n = run_len(listing, '\n');
        let line = listing.take(n as int);
        if starts_with(trimmed_start(line), chipset_key()) {
            Some(trimmed(second_field(line)))
        } else if n < listing.len() {
            chipset_of(listing.skip(n as int + 1))
        } else {
            None
        }
    }
}

/// The graphics processor of a machine with unified memory, as a hardware
/// listing names it; `None` stands for a listing that could not be had. The
/// memory is all that the machine has.
pub open spec fn metal_gpu_of(listing: Option<Seq<char>>, unified_ram_mb: u64) -> (Seq<char>, u64) {
    match listing {
        None => ("Apple GPU (Metal)"@, 0),
        Some(text) => (
            match chipset_of(text) {
                Some(name) => name,
                None => "Apple GPU"@,
            } + " (Metal)"@,
            unified_ram_mb,
        ),
    }
}

fn skip_spaces(text: &[char], from: usize, to: usize) -> (start: usize)
    requires
        from <= to <= text.len(),
    ensures
        from <= start <= to,
        text@.subrange(start as int, to as int) == trimmed_start(
            text@.subrange(from as int, to as int),
        ),
{
    let mut start: usize = from;
    while start < to && space_char(text[start])
        invariant
            from <= start <= to <= text.len(),
            trimmed_start(text@.subrange(start as int, to as int)) == trimmed_start(
                text@.subrange(from as int, to as int),
            ),
        decreases to - start,
    {
        assert(text@.subrange(start as int, to as int).skip(1) =~= text@.subrange(
            start + 1,
            to as int,
        ));
        start += 1;
    }
    start
}

fn find_chipset(text: &[char]) -> (name: Option<String>)
    ensures
        crate::text::opt_view(name) == chipset_of(text@),
{
    let key = chars_of("Chipset Model:");
    let mut at: usize = 0;
    assert(text@.skip(0) =~= text@);
    while at < text.len()
        invariant
            at <= text.len(),
            key@ == chipset_key(),
            chipset_of(text@.skip(at as int)) == chipset_of(text@),
        decreases text.len() - at,
    {
        let ghost rest = text@.skip(at as int);
        let end = run_end(text, at, text.len(), '\n');
        assert(text@.subrange(at as int, text@.len() as int) =~= rest);
        let ghost line = rest.take(end - at);
        assert(text@.subrange(at as int, end as int) =~= line);
        let begin = skip_spaces(text, at, end);
        let found = end - begin >= key.len() && matches_at(text, key.as_slice(), begin);
        proof {
            let lead = text@.subrange(begin as int, end as int);
            assert(lead == trimmed_start(line));
            if key@.len() <= lead.len() {
                assert(lead.subrange(0, key@.len() as int) =~= text@.subrange(
                    begin as int,
                    begin + key@.len(),
                ));
            }
            assert(found == starts_with(trimmed_start(line), chipset_key()));
        }
        if found {
            let colon = run_end(text, at, end, ':');
            let ghost first = run_len(line, ':');
            assert(colon - at == first);
            if colon < end {
                let next = run_end(text, colon + 1, end, ':');
                assert(text@.subrange(colon + 1, end as int) =~= line.skip(first as int + 1));
                let (start, stop) = trim_bounds(text, colon + 1, next);
                assert(text@.subrange(colon + 1, next as int) =~= line.skip(
                    first as int + 1,
                ).take(next - colon - 1));
                return Some(string_of(vstd::slice::slice_subrange(text, start, stop)));
            } else {
                proof {
                    reveal_strlit("Chipset Model:");
                    let lead = text@.subrange(begin as int, end as int);
                    assert(lead[13] == ':');
                    assert(text@[begin + 13] == ':');
                    assert(line[begin - at + 13] == ':');
                    lemma_run_stops_at_first(line, ':', begin - at + 13);
                }
                return None;
            }
        }
        if end < text.len() {
            assert(rest.skip(end - at + 1) =~= text@.skip(end + 1));
            at = end + 1;
        } else {
            assert(text@.skip(text@.len() as int) =~= Seq::<char>::empty());
            at = text.len();
        }
    }
    assert(text@.skip(text@.len() as int) =~= Seq::<char>::empty());
    None
}

/// A run ends no later than any position that holds the stop character.
pub proof fn lemma_run_stops_at_first(text: Seq<char>, stop: char, at: int)
    requires
        0 <= at < text.len(),
        text[at] == stop,
    ensures
        run_len(text, stop) <= at,
    decreases text.len(),
{
    if text[0] != stop {
        assert(text.skip(1)[at - 1] == text[at]);
        lemma_run_stops_at_first(text.skip(1), stop, at - 1);
    }
}

/// The graphics processor of a machine with unified memory, from the
/// listing that the hardware profiler printed; `None` stands for a profiler
/// that reported failure.
pub fn detect_metal_gpu(listing: Option<&str>, unified_ram_mb: u64) -> (gpu: (String, u64))
    ensures
        (gpu.0@, gpu.1) == metal_gpu_of(
            match listing {
                Some(text) => Some(text@),
                None => None,
            },
            unified_ram_mb,
        ),
{
    match listing {
        None => ("Apple GPU (Metal)".to_owned(), 0),
        Some(text) => {
            let chars = chars_of(text);
            let mut name = match find_chipset(chars.as_slice()) {
                Some(name) => name,
                None => "Apple GPU".to_owned(),
            };
            name.append(" (Metal)");
            (name, unified_ram_mb)
        },
    }
}


/// How a connection listing names a port at the end of an address.
pub open spec fn port_mark(port: u16) -> Seq<char> {
    ":"@ + decimal(port as nat)
}

/// The process id of a line of a connection listing that names the port
/// in its local address: the fifth word of a line of at least five words
/// whose second word holds the port's mark.
pub open spec fn netstat_pid(line: Seq<char>, port: u16) -> Option<Seq<char>> {
    let fields = words(line);
    if fields.len() >= 5 && contains(fields[1], port_mark(port)) {
        Some(fields[4])
    } else {
        None
    }
}

/// The process ids that a connection listing names for the port, one for
/// each line that names it, in the order listed.
pub open spec fn netstat_pids(listing: Seq<char>, port: u16) -> Seq<Seq<char>>
    decreases listing.len(),
{
    if listing.len() == 0 {
        Seq::empty()
    } else {
        let n = run_len(listing, '\n');
        let rest = if n < listing.len() {
            listing.skip(n as int + 1)
        } else {
            Seq::empty()
        };
        match netstat_pid(listing.take(n as int), port) {
            Some(pid) => seq![pid] + netstat_pids(rest, port),
            None => netstat_pids(rest, port),
        }
    }
}

/// The process ids that a connection listing names for the port.
pub fn netstat_holders(listing: &str, port: u16) -> (pids: Vec<String>)
    ensures
        views(pids@) == netstat_pids(listing@, port),
{
    let text = chars_of(listing);
    let mut mark_text = ":".to_owned();
    push_decimal(&mut mark_text, port as u64);
    let mark = chars_of(mark_text.as_str());
    let mut pids: Vec<String> = Vec::new();
    let mut at: usize = 0;
    assert(text@.skip(0) =~= text@);
    assert(views(pids@) =~= Seq::<Seq<char>>::empty());
    while at < text.len()
        invariant
            at <= text.len(),
            mark@ == port_mark(port),
            views(pids@) + netstat_pids(text@.skip(at as int), port) == netstat_pids(text@, port),
        decreases text.len() - at,
    {
        let ghost rest = text@.skip(at as int);
        let ghost before = views(pids@);
        let end = run_end(text.as_slice(), at, text.len(), '\n');
        assert(text@.subrange(at as int, text@.len() as int) =~= rest);
        assert(text@.subrange(at as int, end as int) =~= rest.take(end - at));
        let mut fields = words_of(text.as_slice(), at, end);
        if fields.len() >= 5 {
            let second = chars_of(fields[1].as_str());
            if find_in(second.as_slice(), mark.as_slice()).is_some() {
                let pid = fields.swap_remove(4);
                pids.push(pid);
                assert(views(pids@) =~= before + seq![words(rest.take(end - at))[4]]);
            }
        }
        if end < text.len() {
            assert(rest.skip(end - at + 1) =~= text@.skip(end + 1));
            at = end + 1;
        } else {
            assert(text@.skip(text@.len() as int) =~= Seq::<char>::empty());
            at = text.len();
        }
        assert(views(pids@) + netstat_pids(text@.skip(at as int), port) =~= before
            + netstat_pids(rest, port));
    }
    assert(views(pids@) + netstat_pids(text@.skip(at as int), port) =~= views(pids@));
    pids
}

/// A line of a task listing names the engine where, in lower case, it
/// holds the engine binary's name.
pub open spec fn is_engine_task(task: Seq<char>) -> bool {
    is_engine_name(lowercased(task))
}

/// Whether a line of a task listing names the engine, whatever the case it
/// is written in.
pub fn names_engine_task(task: &str) -> (yes: bool)
    ensures
        yes == is_engine_task(task@),
{
    let lower = to_lowercase(task);
    is_engine_process(lower.as_str())
}

/// How a terminated holder is named in the report where only its id is known.
pub open spec fn task_label(pid: Seq<char>) -> Seq<char> {
    "PID "@ + pid
}

/// The ids of the holders whose task listing names the engine, in the
/// order listed.
pub open spec fn stale_tasks(holders: Seq<PortHolder>) -> Seq<Seq<char>>
    decreases holders.len(),
{
    if holders.len() == 0 {
        Seq::empty()
    } else if is_engine_task(holders.last().name@) {
        stale_tasks(holders.drop_last()).push(holders.last().pid@)
    } else {
        stale_tasks(holders.drop_last())
    }
}

/// The labels of the holders whose task listing names the engine.
pub open spec fn stale_task_labels(holders: Seq<PortHolder>) -> Seq<Seq<char>>
    decreases holders.len(),
{
    if holders.len() == 0 {
        Seq::empty()
    } else if is_engine_task(holders.last().name@) {
        stale_task_labels(holders.drop_last()).push(task_label(holders.last().pid@))
    } else {
        stale_task_labels(holders.drop_last())
    }
}

/// Decides what is done about the holders of the engine's port where each
/// is known by its id and its line of the task listing: a holder whose
/// line names the engine is terminated, and any other is left alone.
pub fn sweep_tasks(holders: &Vec<PortHolder>) -> (sweep: PortSweep)
    ensures
        views(sweep.kill@) == stale_tasks(holders@),
        sweep.report is Some <==> stale_tasks(holders@).len() > 0,
        sweep.report matches Some(text) ==> text@ == joined(stale_task_labels(holders@), ", "@),
{
    let mut kill: Vec<String> = Vec::new();
    let mut labels: Vec<String> = Vec::new();
    let mut i: usize = 0;
    assert(holders@.take(0) =~= Seq::<PortHolder>::empty());
    assert(views(kill@) =~= Seq::<Seq<char>>::empty());
    assert(views(labels@) =~= Seq::<Seq<char>>::empty());
    while i < holders.len()
        invariant
            i <= holders.len(),
            kill@.len() == labels@.len(),
            views(kill@) == stale_tasks(holders@.take(i as int)),
            views(labels@) == stale_task_labels(holders@.take(i as int)),
        decreases holders.len() - i,
    {
        let ghost killed = views(kill@);
        let ghost named = views(labels@);
        assert(holders@.take(i + 1).drop_last() =~= holders@.take(i as int));
        let holder = &holders[i];
        if names_engine_task(holder.name.as_str()) {
            let mut label = "PID ".to_owned();
            label.append(holder.pid.as_str());
            kill.push(holder.pid.clone());
            labels.push(label);
            assert(views(kill@) =~= killed.push(holder.pid@));
            assert(views(labels@) =~= named.push(task_label(holder.pid@)));
        }
        i += 1;
    }
    assert(holders@.take(holders@.len() as int) =~= holders@);
    assert(views(kill@).len() == kill@.len());
    let report = if kill.len() > 0 {
        Some(join(&labels, ", "))
    } else {
        None
    };
    PortSweep { kill, report }
}

} // verus!
