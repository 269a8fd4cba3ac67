//! The setup header: the last two whitespace-delimited tokens of the source
//! text declare the signal count and the cycle count.

use vstd::prelude::*;
use vstd::string::StrSliceExecFns;
use crate::error::HeaderField;
use crate::error::SetupError;
use crate::error::SetupErrorModel;
use crate::numeral::parse_u64_numeral;
use crate::numeral::spec_decimal_value;
use crate::numeral::spec_is_u64_numeral;
use crate::numeral::spec_numeral_body;

verus! {

/// The characters that separate header tokens.
pub open spec fn spec_is_ws(c: char) -> bool {
    c == ' ' || c == '\t' || c == '\n' || c == '\r'
}

/// Scanning left from `end`, the position where the run of whitespace ends.
pub open spec fn spec_ws_run_start(s: Seq<char>, end: int) -> int
    decreases end,
{
    if end > 0 && spec_is_ws(s[end - 1]) {
        spec_ws_run_start(s, end - 1)
    } else {
        end
    }
}

/// Scanning left from `end`, the position where the run of token (non
/// whitespace) characters ends.
pub open spec fn spec_token_start(s: Seq<char>, end: int) -> int
    decreases end,
{
    if end > 0 && !spec_is_ws(s[end - 1]) {
        spec_token_start(s, end - 1)
    } else {
        end
    }
}

/// The last two whitespace-delimited tokens of `s`: the second-to-last (the
/// declared signal count) first, the last (the declared cycle count) second.
/// A missing token comes out empty.
pub open spec fn spec_header_tokens(s: Seq<char>) -> (Seq<char>, Seq<char>) {
    let e1 = spec_ws_run_start(s, s.len() as int);
    let t1 = spec_token_start(s, e1);
    let e2 = spec_ws_run_start(s, t1);
    let t2 = spec_token_start(s, e2);
    (s.subrange(t2, e2), s.subrange(t1, e1))
}

/// What parsing the header of `s` yields: the two counts, or the first
/// failure, checked in the order the cycle count first, the signal count
/// second.
pub open spec fn spec_parse_header(s: Seq<char>, source: Seq<char>) -> Result<
    (u64, u64),
    SetupErrorModel,
> {
    let (pt, lt) = spec_header_tokens(s);
    if lt.len() == 0 {
        Err(SetupErrorModel::MissingToken { which: HeaderField::NumCycles, source })
    } else if !spec_is_u64_numeral(lt) {
        Err(SetupErrorModel::BadToken { which: HeaderField::NumCycles, token: lt, source })
    } else if pt.len() == 0 {
        Err(SetupErrorModel::MissingToken { which: HeaderField::NumSignals, source })
    } else if !spec_is_u64_numeral(pt) {
        Err(SetupErrorModel::BadToken { which: HeaderField::NumSignals, token: pt, source })
    } else {
        Ok(
            (
                spec_decimal_value(spec_numeral_body(pt)) as u64,
                spec_decimal_value(spec_numeral_body(lt)) as u64,
            ),
        )
    }
}

proof fn lemma_scan_bounds(s: Seq<char>, end: int)
    requires
        0 <= end <= s.len(),
    ensures
        0 <= spec_ws_run_start(s, end) <= end,
        0 <= spec_token_start(s, end) <= end,
    decreases end,
{
    if end > 0 {
        lemma_scan_bounds(s, end - 1);
    }
}

fn is_ws_char(c: char) -> (b: bool)
    ensures
        b == spec_is_ws(c),
{
    c == ' ' || c == '\t' || c == '\n' || c == '\r'
}

/// Finds `spec_ws_run_start(text@, end)` by scanning left.
fn scan_ws(text: &str, end: usize) -> (p: usize)
    requires
        end <= text@.len(),
    ensures
        p <= end,
        p == spec_ws_run_start(text@, end as int),
{
    let mut p: usize = end;
    while p > 0 && is_ws_char(text.get_char(p - 1))
        invariant
            p <= end <= text@.len(),
            spec_ws_run_start(text@, end as int) == spec_ws_run_start(text@, p as int),
        decreases p,
    {
        p = p - 1;
    }
    p
}

/// Finds `spec_token_start(text@, end)` by scanning left.
fn scan_token(text: &str, end: usize) -> (p: usize)
    requires
        end <= text@.len(),
    ensures
        p <= end,
        p == spec_token_start(text@, end as int),
{
    let mut p: usize = end;
    while p > 0 && !is_ws_char(text.get_char(p - 1))
        invariant
            p <= end <= text@.len(),
            spec_token_start(text@, end as int) == spec_token_start(text@, p as int),
        decreases p,
    {
        p = p - 1;
    }
    p
}

/// Reads the two header counts out of `text`, reporting a failure against
/// `source` (the identifier of where the text came from). Returns
/// `(num_signals, num_cycles)`.
pub fn parse_header(text: &str, source: &str) -> (r: Result<(u64, u64), SetupError>)
    ensures
        match r {
            Ok(v) => spec_parse_header(text@, source@) == Ok::<(u64, u64), SetupErrorModel>(v),
            Err(e) => spec_parse_header(text@, source@) == Err::<(u64, u64), SetupErrorModel>(e@),
        },
{
    let n: usize = text.unicode_len();
    let e1 = scan_ws(text, n);
    let t1 = scan_token(text, e1);
    let e2 = scan_ws(text, t1);
    let t2 = scan_token(text, e2);
    proof {
        lemma_scan_bounds(text@, n as int);
        lemma_scan_bounds(text@, e1 as int);
        lemma_scan_bounds(text@, t1 as int);
        lemma_scan_bounds(text@, e2 as int);
    }
    let ghost pt = spec_header_tokens(text@).0;
    let ghost lt = spec_header_tokens(text@).1;

    if t1 == e1 {
        return Err(
            SetupError::MissingToken { which: HeaderField::NumCycles, source: source.to_owned() },
        );
    }
    let last_token = text.substring_char(t1, e1);
    let num_cycles = match parse_u64_numeral(last_token) {
        Some(v) => v,
        None => {
            return Err(
                SetupError::BadToken {
                    which: HeaderField::NumCycles,
                    token: last_token.to_owned(),
                    source: source.to_owned(),
                },
            );
        },
    };
    if t2 == e2 {
        return Err(
            SetupError::MissingToken { which: HeaderField::NumSignals, source: source.to_owned() },
        );
    }
    let prev_token = text.substring_char(t2, e2);
    let num_signals = match parse_u64_numeral(prev_token) {
        Some(v) => v,
        None => {
            return Err(
                SetupError::BadToken {
                    which: HeaderField::NumSignals,
                    token: prev_token.to_owned(),
                    source: source.to_owned(),
                },
            );
        },
    };
    Ok((num_signals, num_cycles))
}

} // verus!
