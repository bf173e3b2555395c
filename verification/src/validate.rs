//! Validation of run parameters supplied by the presentation layer.
//!
//! The four inputs arrive as strings.  The target must be non-empty; the
//! probe count, inter-probe interval and per-probe timeout must be positive
//! decimal integers.  Each field that fails validation is reported with a
//! field-specific error, checked in a fixed order.

use vstd::prelude::*;

verus! {

/// A decimal digit.
pub open spec fn is_dec_digit(c: char) -> bool {
    '0' <= c && c <= '9'
}

/// Every character of `s` is a decimal digit.
pub open spec fn all_dec_digits(s: Seq<char>) -> bool {
    forall|i: int| 0 <= i < s.len() ==> is_dec_digit(#[trigger] s[i])
}

/// The value of `s` read as a decimal numeral (most significant digit first).
pub open spec fn dec_value(s: Seq<char>) -> nat
    decreases s.len(),
{
    if s.len() == 0 {
        0
    } else {
        (dec_value(s.drop_last()) * 10 + (s.last() as int - '0' as int)) as nat
    }
}

/// `s` is a decimal numeral whose value is positive and at most `max`.
pub open spec fn is_bounded_positive_decimal(s: Seq<char>, max: nat) -> bool {
    &&& s.len() > 0
    &&& all_dec_digits(s)
    &&& 1 <= dec_value(s) <= max
}

/// Extending a digit string cannot decrease its value.
proof fn lemma_dec_value_prefix_le(s: Seq<char>, i: int)
    requires
        0 <= i <= s.len(),
        all_dec_digits(s),
    ensures
        dec_value(s.take(i)) <= dec_value(s),
    decreases s.len() - i,
{
    if i < s.len() {
        lemma_dec_value_prefix_le(s, i + 1);
        assert(s.take(i + 1).drop_last() =~= s.take(i));
        assert(s.take(i + 1).last() == s[i]);
        assert(dec_value(s.take(i)) <= dec_value(s.take(i + 1)));
    } else {
        assert(s.take(i) =~= s);
    }
}

/// Reads `s` as a decimal numeral, refusing the empty string, any
/// non-digit character, and any value above `max`.
pub fn parse_decimal(s: &str, max: u64) -> (r: Option<u64>)
    ensures
        match r {
            Some(v) => {
                &&& s@.len() > 0
                &&& all_dec_digits(s@)
                &&& dec_value(s@) == v
                &&& v <= max
            },
            None => s@.len() == 0 || !all_dec_digits(s@) || dec_value(s@) > max,
        },
{
    let n = s.unicode_len();
    if n == 0 {
        return None;
    }
    let mut val: u64 = 0;
    let mut i: usize = 0;
    while i < n
        invariant
            0 <= i <= n,
            n == s@.len(),
            forall|j: int| 0 <= j < i ==> is_dec_digit(#[trigger] s@[j]),
            val == dec_value(s@.take(i as int)),
            val <= max,
        decreases n - i,
    {
        let c = s.get_char(i);
        if c < '0' || c > '9' {
            assert(!is_dec_digit(s@[i as int]));
            return None;
        }
        let d: u64 = (c as u32 - '0' as u32) as u64;
        proof {
            assert(s@.take(i + 1).drop_last() =~= s@.take(i as int));
            assert(s@.take(i + 1).last() == s@[i as int]);
        }
        if val > max / 10 || (val == max / 10 && d > max % 10) {
            proof {
                assert(dec_value(s@.take(i + 1)) > max);
                if all_dec_digits(s@) {
                    lemma_dec_value_prefix_le(s@, i + 1);
                }
            }
            return None;
        }
        val = val * 10 + d;
        i = i + 1;
    }
    proof {
        assert(s@.take(n as int) =~= s@);
    }
    Some(val)
}

/// The reason a set of run parameters was refused, one variant per field.
#[derive(Clone, Copy, Debug, PartialEq, Eq, Structural)]
pub enum ValidationError {
    EmptyTarget,
    InvalidCount,
    InvalidInterval,
    InvalidTimeout,
}

impl ValidationError {
    /// The field-specific status line shown when validation refuses a run.
    pub fn message(&self) -> (m: String)
        ensures
            self is EmptyTarget ==> m@ == "error: a target must be given"@,
            self is InvalidCount ==> m@ == "error: the count must be a positive number"@,
            self is InvalidInterval ==> m@ == "error: the interval must be a positive number"@,
            self is InvalidTimeout ==> m@ == "error: the timeout must be a positive number"@,
    {
        match self {
            ValidationError::EmptyTarget => String::from_str("error: a target must be given"),
            ValidationError::InvalidCount => String::from_str(
                "error: the count must be a positive number",
            ),
            ValidationError::InvalidInterval => String::from_str(
                "error: the interval must be a positive number",
            ),
            ValidationError::InvalidTimeout => String::from_str(
                "error: the timeout must be a positive number",
            ),
        }
    }
}

/// A validated, immutable set of parameters for one run.
#[derive(Debug)]
pub struct RunParameters {
    /// The target exactly as the user supplied it (shown on every row).
    pub target: String,
    /// How many probes to send.
    pub count: u16,
    /// Seconds to wait between consecutive probes.
    pub interval_secs: u64,
    /// Seconds to wait for each reply.
    pub timeout_secs: u64,
}

impl RunParameters {
    /// Validated parameters: non-empty target, all numbers positive.
    pub open spec fn wf(&self) -> bool {
        &&& self.target@.len() > 0
        &&& self.count >= 1
        &&& self.interval_secs >= 1
        &&& self.timeout_secs >= 1
    }
}

/// The outcome of validating the four raw fields, in checking order:
/// target first, then count, interval and timeout.
pub open spec fn spec_validate(
    target: Seq<char>,
    count: Seq<char>,
    interval: Seq<char>,
    timeout: Seq<char>,
) -> Result<(), ValidationError> {
    if target.len() == 0 {
        Err(ValidationError::EmptyTarget)
    } else if !is_bounded_positive_decimal(count, 0xFFFF) {
        Err(ValidationError::InvalidCount)
    } else if !is_bounded_positive_decimal(interval, 0xFFFF_FFFF_FFFF_FFFF) {
        Err(ValidationError::InvalidInterval)
    } else if !is_bounded_positive_decimal(timeout, 0xFFFF_FFFF_FFFF_FFFF) {
        Err(ValidationError::InvalidTimeout)
    } else {
        Ok(())
    }
}

/// Validates the four raw input fields and builds the run parameters.
///
/// Succeeds exactly when the target is non-empty, the count is a decimal
/// numeral in `1 ..= 65535`, and the interval and timeout are positive
/// decimal numerals that fit in 64 bits; otherwise reports the first
/// failing field.
pub fn validate_parameters(target: &str, count: &str, interval: &str, timeout: &str) -> (r: Result<
    RunParameters,
    ValidationError,
>)
    ensures
        match r {
            Ok(p) => {
                &&& spec_validate(target@, count@, interval@, timeout@) is Ok
                &&& p.wf()
                &&& p.target@ == target@
                &&& p.count == dec_value(count@)
                &&& p.interval_secs == dec_value(interval@)
                &&& p.timeout_secs == dec_value(timeout@)
            },
            Err(e) => spec_validate(target@, count@, interval@, timeout@) == Err::<
                (),
                ValidationError,
            >(e),
        },
{
    if target.unicode_len() == 0 {
        return Err(ValidationError::EmptyTarget);
    }
    let count_val = match parse_decimal(count, 0xFFFF) {
        Some(v) if v >= 1 => v as u16,
        _ => {
            return Err(ValidationError::InvalidCount);
        },
    };
    let interval_val = match parse_decimal(interval, 0xFFFF_FFFF_FFFF_FFFF) {
        Some(v) if v >= 1 => v,
        _ => {
            return Err(ValidationError::InvalidInterval);
        },
    };
    let timeout_val = match parse_decimal(timeout, 0xFFFF_FFFF_FFFF_FFFF) {
        Some(v) if v >= 1 => v,
        _ => {
            return Err(ValidationError::InvalidTimeout);
        },
    };
    Ok(
        RunParameters {
            target: target.to_owned(),
            count: count_val,
            interval_secs: interval_val,
            timeout_secs: timeout_val,
        },
    )
}

} // verus!
