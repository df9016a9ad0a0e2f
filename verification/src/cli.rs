//! Validation of the command-line surface.
//!
//! The binary extracts the target URI and the repeat-count argument
//! from the command line and hands them here as plain values; this
//! module decides whether the run may start, parses the repeat count,
//! and builds the [`LoadRequest`] the coordinator works from. On a
//! usage error the binary prints its usage text and issues no request.

use crate::load::LoadRequest;
use crate::worker::Method;
use vstd::prelude::*;
use vstd::string::StringSliceAdditionalSpecFns;

verus! {

/// A pre-flight usage error: the run is refused before any request is
/// issued.
#[derive(Clone, Copy, Debug, PartialEq, Eq, Structural)]
pub enum CliError {
    /// No target URI was given.
    MissingUri,
    /// The repeat-count option was not given.
    MissingTimes,
    /// The repeat-count argument is not a decimal number.
    TimesNotANumber,
}

pub open spec fn is_ascii_digit(b: u8) -> bool {
    48 <= b <= 57
}

/// The value of a run of decimal digit bytes, most significant first.
pub open spec fn digits_value(s: Seq<u8>) -> int
    decreases s.len(),
{
    if s.len() == 0 {
        0
    } else {
        digits_value(s.drop_last()) * 10 + (s.last() - 48)
    }
}

pub open spec fn all_digits(s: Seq<u8>) -> bool {
    forall|i: int| 0 <= i < s.len() ==> is_ascii_digit(s[i])
}

/// The digit run of a decimal numeral: the bytes after an optional
/// leading plus sign.
pub open spec fn digit_run(s: Seq<u8>) -> Seq<u8> {
    if s.len() > 0 && s[0] == 43 {
        s.subrange(1, s.len() as int)
    } else {
        s
    }
}

/// The value of a decimal numeral, as `u64::from_str` accepts one: an
/// optional leading `+`, then one or more digits, with a value that
/// fits in 64 bits; anything else is rejected.
pub open spec fn spec_parse_u64(s: Seq<u8>) -> Option<u64> {
    let d = digit_run(s);
    if d.len() > 0 && all_digits(d) && digits_value(d) <= u64::MAX {
        Some(digits_value(d) as u64)
    } else {
        None
    }
}

/// The value of a string as a decimal numeral, read from its UTF-8
/// bytes.
pub open spec fn spec_parse_times(s: Seq<char>) -> Option<u64> {
    spec_parse_u64(vstd::utf8::encode_utf8(s))
}

proof fn lemma_digits_value_nonneg(s: Seq<u8>)
    requires
        all_digits(s),
    ensures
        digits_value(s) >= 0,
    decreases s.len(),
{
    if s.len() > 0 {
        assert(all_digits(s.drop_last()));
        lemma_digits_value_nonneg(s.drop_last());
    }
}

/// Reading further digits never decreases the value of the run.
proof fn lemma_digits_value_take_le(s: Seq<u8>, k: int)
    requires
        all_digits(s),
        0 <= k <= s.len(),
    ensures
        digits_value(s.take(k)) <= digits_value(s),
    decreases s.len() - k,
{
    if k == s.len() {
        assert(s.take(k) =~= s);
    } else {
        assert(s.take(k + 1).drop_last() =~= s.take(k));
        assert(all_digits(s.take(k)));
        lemma_digits_value_nonneg(s.take(k));
        lemma_digits_value_take_le(s, k + 1);
    }
}

/// Parse a repeat count, exactly as `u64::from_str` would.
pub fn parse_times(s: &str) -> (r: Option<u64>)
    ensures
        r == spec_parse_times(s@),
{
    let bytes = s.as_bytes();
    let len = bytes.len();
    let mut i: usize = 0;
    if len > 0 && bytes[0] == 43u8 {
        i = 1;
    }
    let ghost start = i as int;
    let ghost run = digit_run(bytes@);
    proof {
        assert(run =~= bytes@.subrange(start, len as int));
    }
    if i == len {
        return None;
    }
    let mut val: u64 = 0;
    while i < len
        invariant
            bytes@ == s.spec_bytes(),
            run == digit_run(bytes@),
            run =~= bytes@.subrange(start, len as int),
            len == bytes@.len(),
            0 <= start <= i <= len,
            start < len,
            all_digits(bytes@.subrange(start, i as int)),
            val == digits_value(bytes@.subrange(start, i as int)),
        decreases len - i,
    {
        let b = bytes[i];
        if b < 48 || b > 57 {
            proof {
                assert(run[i - start] == bytes@[i as int]);
                assert(!all_digits(run));
            }
            return None;
        }
        let d = (b - 48) as u64;
        if val > (u64::MAX - d) / 10 {
            proof {
                let prefix = bytes@.subrange(start, i as int);
                let ext = bytes@.subrange(start, i + 1);
                assert(ext.drop_last() =~= prefix);
                vstd::arithmetic::div_mod::lemma_fundamental_div_mod(
                    u64::MAX - d,
                    10,
                );
                vstd::arithmetic::div_mod::lemma_mod_bound(u64::MAX - d, 10);
                assert(digits_value(ext) > u64::MAX);
                if all_digits(run) {
                    assert(run.take(i + 1 - start) =~= ext);
                    lemma_digits_value_take_le(run, i + 1 - start);
                }
            }
            return None;
        }
        proof {
            let prefix = bytes@.subrange(start, i as int);
            let ext = bytes@.subrange(start, i + 1);
            assert(ext.drop_last() =~= prefix);
            assert(ext.last() == bytes@[i as int]);
            vstd::arithmetic::div_mod::lemma_fundamental_div_mod(u64::MAX - d, 10);
            vstd::arithmetic::div_mod::lemma_mod_bound(u64::MAX - d, 10);
        }
        val = val * 10 + d;
        i = i + 1;
    }
    proof {
        assert(bytes@.subrange(start, len as int) =~= run);
    }
    Some(val)
}

/// Decide whether a run may start: the target URI must be present,
/// then the repeat count must be present and a decimal number. The
/// first failed check names the error; on success the URI and the
/// parsed count come back.
pub fn validate_args(uri: Option<String>, times_arg: Option<String>) -> (r: Result<
    (String, u64),
    CliError,
>)
    ensures
        uri is None ==> r == Err::<(String, u64), CliError>(CliError::MissingUri),
        uri is Some && times_arg is None ==> r == Err::<(String, u64), CliError>(
            CliError::MissingTimes,
        ),
        uri is Some && (times_arg matches Some(t) && spec_parse_times(t@) is None) ==> r == Err::<
            (String, u64),
            CliError,
        >(CliError::TimesNotANumber),
        uri matches Some(u) ==> times_arg matches Some(t) ==> spec_parse_times(t@) matches Some(n)
            ==> (r matches Ok(v) && v.0@ == u@ && v.1 == n),
{
    let url = match uri {
        Some(u) => u,
        None => {
            return Err(CliError::MissingUri);
        },
    };
    let times = match times_arg {
        Some(t) => t,
        None => {
            return Err(CliError::MissingTimes);
        },
    };
    match parse_times(times.as_str()) {
        Some(n) => Ok((url, n)),
        None => Err(CliError::TimesNotANumber),
    }
}

/// Build the request a validated command line asks for: POST with the
/// given body when the post option is present, GET with no body
/// otherwise.
pub fn build_request(url: String, times: u64, post: bool, post_body: Option<String>) -> (r:
    LoadRequest)
    requires
        post ==> post_body is Some,
    ensures
        r.method == if post {
            Method::Post
        } else {
            Method::Get
        },
        r.url@ == url@,
        r.total_iterations == times,
        post ==> (r.body matches Some(b) && post_body matches Some(pb) && b@ == pb@),
        !post ==> r.body is None,
        r.wf(),
{
    let method = if post {
        Method::Post
    } else {
        Method::Get
    };
    let body = if post {
        post_body
    } else {
        None
    };
    LoadRequest { method, url, body, total_iterations: times }
}

} // verus!
