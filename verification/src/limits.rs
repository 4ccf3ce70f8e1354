use vstd::prelude::*;
use vstd::string::StringExecFns;
use crate::decimal::{decimal_digits, push_decimal};

verus! {

/// Key length used when a request names none.
pub const DEFAULT_KEY_LENGTH: usize = 3000;
/// Smallest key length a request may ask for.
pub const MIN_KEY_LENGTH: usize = 500;
/// Largest key length a request may ask for.
pub const MAX_KEY_LENGTH: usize = 200_000;
/// Per-batch pacing delay (ms) used when a request names none.
pub const DEFAULT_PACE_MS: u64 = 4;
/// Pacing delays above this many milliseconds are cut down to it.
pub const MAX_PACE_MS: u64 = 50;
/// Longest message (in bytes) a run may authenticate.
pub const MAX_MESSAGE_LEN: usize = 10_000;
/// Most intercept ratios a sweep may evaluate.
pub const MAX_SWEEP_POINTS: usize = 32;

/// A request the server refuses, with the reason.
#[derive(Debug, Clone, Copy, PartialEq, Eq, Structural)]
pub enum RequestError {
    MessageTooLong,
    KeyLengthOutOfRange,
    BaseThresholdOutOfRange,
    InterceptRatioOutOfRange,
    NoInterceptRatios,
    TooManyInterceptRatios,
    SweepRatioOutOfRange,
}

/// The text sent to the client for each refusal.
pub open spec fn request_error_text(e: RequestError) -> Seq<char> {
    match e {
        RequestError::MessageTooLong => "message must be at most "@ + decimal_digits(
            MAX_MESSAGE_LEN as nat,
        ) + " bytes"@,
        RequestError::KeyLengthOutOfRange => "key_length must be between "@ + decimal_digits(
            MIN_KEY_LENGTH as nat,
        ) + " and "@ + decimal_digits(MAX_KEY_LENGTH as nat),
        RequestError::BaseThresholdOutOfRange => "base_threshold must be between 0.0 and 1.0"@,
        RequestError::InterceptRatioOutOfRange => "intercept_ratio must be between 0.0 and 1.0"@,
        RequestError::NoInterceptRatios => "intercept_ratios must contain at least one value"@,
        RequestError::TooManyInterceptRatios => "intercept_ratios must contain at most 32 values"@,
        RequestError::SweepRatioOutOfRange => "each intercept_ratio must be between 0.0 and 1.0"@,
    }
}

impl RequestError {
    /// The message the server answers this refusal with.
    pub fn message(&self) -> (s: String)
        ensures
            s@ == request_error_text(*self),
            *self == RequestError::MessageTooLong ==> s@ == "message must be at most 10000 bytes"@,
            *self == RequestError::KeyLengthOutOfRange ==> s@
                == "key_length must be between 500 and 200000"@,
            *self == RequestError::BaseThresholdOutOfRange ==> s@
                == "base_threshold must be between 0.0 and 1.0"@,
            *self == RequestError::InterceptRatioOutOfRange ==> s@
                == "intercept_ratio must be between 0.0 and 1.0"@,
            *self == RequestError::NoInterceptRatios ==> s@
                == "intercept_ratios must contain at least one value"@,
            *self == RequestError::TooManyInterceptRatios ==> s@
                == "intercept_ratios must contain at most 32 values"@,
            *self == RequestError::SweepRatioOutOfRange ==> s@
                == "each intercept_ratio must be between 0.0 and 1.0"@,
    {
        match self {
            RequestError::MessageTooLong => {
                let mut s = String::from_str("message must be at most ");
                push_decimal(&mut s, MAX_MESSAGE_LEN as u64);
                s.append(" bytes");
                proof {
                    reveal_strlit("message must be at most ");
                    reveal_strlit(" bytes");
                    reveal_strlit("message must be at most 10000 bytes");
                    reveal_with_fuel(decimal_digits, 6);
                    assert(decimal_digits(10000) =~= seq!['1', '0', '0', '0', '0']);
                    assert(s@ =~= "message must be at most 10000 bytes"@);
                }
                s
            },
            RequestError::KeyLengthOutOfRange => {
                let mut s = String::from_str("key_length must be between ");
                push_decimal(&mut s, MIN_KEY_LENGTH as u64);
                s.append(" and ");
                push_decimal(&mut s, MAX_KEY_LENGTH as u64);
                proof {
                    reveal_strlit("key_length must be between ");
                    reveal_strlit(" and ");
                    reveal_strlit("key_length must be between 500 and 200000");
                    reveal_with_fuel(decimal_digits, 7);
                    assert(decimal_digits(500) =~= seq!['5', '0', '0']);
                    assert(decimal_digits(200000) =~= seq!['2', '0', '0', '0', '0', '0']);
                    assert(s@ =~= "key_length must be between 500 and 200000"@);
                }
                s
            },
            RequestError::BaseThresholdOutOfRange => String::from_str(
                "base_threshold must be between 0.0 and 1.0",
            ),
            RequestError::InterceptRatioOutOfRange => String::from_str(
                "intercept_ratio must be between 0.0 and 1.0",
            ),
            RequestError::NoInterceptRatios => String::from_str(
                "intercept_ratios must contain at least one value",
            ),
            RequestError::TooManyInterceptRatios => String::from_str(
                "intercept_ratios must contain at most 32 values",
            ),
            RequestError::SweepRatioOutOfRange => String::from_str(
                "each intercept_ratio must be between 0.0 and 1.0",
            ),
        }
    }
}


/// The message authenticated when a run request carries none.
pub open spec fn default_message_text() -> Seq<char> {
    "SIH26141 Sensitive Financial Transaction Data"@
}

/// The length in bytes (UTF-8) of a text.
pub open spec fn utf8_len(text: Seq<char>) -> nat {
    vstd::utf8::encode_utf8(text).len()
}

/// Whether a key length lies in the accepted range.
pub open spec fn key_length_ok(key_length: int) -> bool {
    MIN_KEY_LENGTH <= key_length <= MAX_KEY_LENGTH
}

/// The pacing delay actually used for a requested one.
pub open spec fn pace_for(requested: Option<u64>) -> u64 {
    let p = match requested {
        Some(p) => p,
        None => DEFAULT_PACE_MS,
    };
    if p < MAX_PACE_MS { p } else { MAX_PACE_MS }
}

/// The key length actually used for a requested one.
pub open spec fn key_length_for(requested: Option<usize>) -> usize {
    match requested {
        Some(k) => k,
        None => DEFAULT_KEY_LENGTH,
    }
}

/// Refuses key lengths outside `MIN_KEY_LENGTH..=MAX_KEY_LENGTH`.
pub fn validate_key_length(key_length: usize) -> (r: Result<(), RequestError>)
    ensures
        r == (if key_length_ok(key_length as int) {
            Ok::<(), RequestError>(())
        } else {
            Err(RequestError::KeyLengthOutOfRange)
        }),
        r is Ok <==> (MIN_KEY_LENGTH <= key_length && key_length <= MAX_KEY_LENGTH),
        r is Err ==> r == Err::<(), RequestError>(RequestError::KeyLengthOutOfRange),
{
    if MIN_KEY_LENGTH <= key_length && key_length <= MAX_KEY_LENGTH {
        Ok(())
    } else {
        Err(RequestError::KeyLengthOutOfRange)
    }
}

/// Refuses messages longer than `MAX_MESSAGE_LEN` bytes.
pub fn check_message_length(message: &str) -> (r: Result<(), RequestError>)
    ensures
        r == (if utf8_len(message@) <= MAX_MESSAGE_LEN {
            Ok::<(), RequestError>(())
        } else {
            Err(RequestError::MessageTooLong)
        }),
        r is Ok <==> vstd::utf8::encode_utf8(message@).len() <= MAX_MESSAGE_LEN,
        r is Err ==> r == Err::<(), RequestError>(RequestError::MessageTooLong),
{
    let bytes = message.as_bytes();
    if bytes.len() <= MAX_MESSAGE_LEN {
        Ok(())
    } else {
        Err(RequestError::MessageTooLong)
    }
}

/// Refuses sweeps with no ratio or with more than `MAX_SWEEP_POINTS` ratios.
pub fn check_sweep_size(count: usize) -> (r: Result<(), RequestError>)
    ensures
        r == (if count == 0 {
            Err(RequestError::NoInterceptRatios)
        } else if count > MAX_SWEEP_POINTS {
            Err(RequestError::TooManyInterceptRatios)
        } else {
            Ok::<(), RequestError>(())
        }),
{
    if count == 0 {
        Err(RequestError::NoInterceptRatios)
    } else if count > MAX_SWEEP_POINTS {
        Err(RequestError::TooManyInterceptRatios)
    } else {
        Ok(())
    }
}

/// The key length used for a request: the requested one, else the default.
pub fn effective_key_length(requested: Option<usize>) -> (k: usize)
    ensures
        k == key_length_for(requested),
        requested matches Some(asked) ==> k == asked,
        requested is None ==> k == DEFAULT_KEY_LENGTH,
{
    match requested {
        Some(k) => k,
        None => DEFAULT_KEY_LENGTH,
    }
}

/// The pacing delay used for a request: the requested one (else the
/// default), cut down to `MAX_PACE_MS`.
pub fn effective_pace_ms(requested: Option<u64>) -> (p: u64)
    ensures
        p == pace_for(requested),
        p <= MAX_PACE_MS,
        requested matches Some(asked) ==> (asked <= MAX_PACE_MS ==> p == asked),
        requested matches Some(asked) ==> (asked > MAX_PACE_MS ==> p == MAX_PACE_MS),
        requested is None ==> p == DEFAULT_PACE_MS,
{
    let p = match requested {
        Some(p) => p,
        None => DEFAULT_PACE_MS,
    };
    if p < MAX_PACE_MS {
        p
    } else {
        MAX_PACE_MS
    }
}

/// The message authenticated by a run: the requested one, else the default.
pub fn effective_message(requested: Option<String>) -> (m: String)
    ensures
        m@ == (match requested {
            Some(r) => r@,
            None => default_message_text(),
        }),
        requested is None ==> m@ == "SIH26141 Sensitive Financial Transaction Data"@,
{
    match requested {
        Some(m) => m,
        None => String::from_str("SIH26141 Sensitive Financial Transaction Data"),
    }
}

/// The integer and text settings of an accepted run request.
pub struct RunSettings {
    pub key_length: usize,
    pub pace_ms: u64,
    pub message: String,
}

/// Settles the key length, pacing and message of a run request, checking
/// the message length first and the key length second.
pub fn run_settings(
    key_length: Option<usize>,
    pace_ms: Option<u64>,
    message: Option<String>,
) -> (r: Result<RunSettings, RequestError>)
    ensures
        ({
            let m = match message {
                Some(t) => t@,
                None => default_message_text(),
            };
            let k = key_length_for(key_length);
            match r {
                Ok(s) => {
                    &&& utf8_len(m) <= MAX_MESSAGE_LEN
                    &&& key_length_ok(k as int)
                    &&& s.key_length == k
                    &&& s.pace_ms == pace_for(pace_ms)
                    &&& s.message@ == m
                },
                Err(e) => if utf8_len(m) > MAX_MESSAGE_LEN {
                    e == RequestError::MessageTooLong
                } else {
                    !key_length_ok(k as int) && e == RequestError::KeyLengthOutOfRange
                },
            }
        }),
        key_length matches Some(asked) ==> ((asked < MIN_KEY_LENGTH || asked > MAX_KEY_LENGTH)
            ==> r is Err),
        r matches Ok(s) ==> MIN_KEY_LENGTH <= s.key_length <= MAX_KEY_LENGTH,
        r matches Ok(s) ==> (key_length matches Some(asked) ==> s.key_length == asked),
        r matches Ok(s) ==> (key_length is None ==> s.key_length == DEFAULT_KEY_LENGTH),
        r matches Ok(s) ==> s.pace_ms <= MAX_PACE_MS,
        r matches Ok(s) ==> (pace_ms matches Some(asked) ==> (asked <= MAX_PACE_MS ==> s.pace_ms
            == asked)),
        r matches Ok(s) ==> (message matches Some(t) ==> s.message@ == t@),
        r matches Ok(s) ==> vstd::utf8::encode_utf8(s.message@).len() <= MAX_MESSAGE_LEN,
{
    let key_length = effective_key_length(key_length);
    let pace_ms = effective_pace_ms(pace_ms);
    let message = effective_message(message);
    match check_message_length(message.as_str()) {
        Ok(()) => {},
        Err(e) => {
            return Err(e);
        },
    }
    match validate_key_length(key_length) {
        Ok(()) => {},
        Err(e) => {
            return Err(e);
        },
    }
    Ok(RunSettings { key_length, pace_ms, message })
}

/// A requested key length is used as asked, never adjusted; without one the
/// default is used.
pub proof fn requested_key_length_is_kept(asked: usize)
    ensures
        key_length_for(Some(asked)) == asked,
        key_length_for(None) == DEFAULT_KEY_LENGTH,
{
}

/// A key length outside the accepted range is refused, however it was
/// requested, and the default is accepted.
pub proof fn out_of_range_key_length_refused(asked: usize)
    ensures
        (asked < MIN_KEY_LENGTH || asked > MAX_KEY_LENGTH) ==> !key_length_ok(
            key_length_for(Some(asked)) as int,
        ),
        (MIN_KEY_LENGTH <= asked <= MAX_KEY_LENGTH) ==> key_length_ok(
            key_length_for(Some(asked)) as int,
        ),
        key_length_ok(key_length_for(None) as int),
{
}

/// The pace used never exceeds the cap, and a pace within the cap is
/// honoured exactly.
pub proof fn pace_is_capped_not_altered(asked: u64)
    ensures
        pace_for(Some(asked)) <= MAX_PACE_MS,
        asked <= MAX_PACE_MS ==> pace_for(Some(asked)) == asked,
        asked > MAX_PACE_MS ==> pace_for(Some(asked)) == MAX_PACE_MS,
        pace_for(None) == DEFAULT_PACE_MS,
{
}

} // verus!
