//! Multi-factor sign-in: the account check that precedes the prompt, the
//! form of a code, and what follows each attempt.

use crate::arn::{account_of_arn, extract_account_from_arn};
use crate::text::{chars_of, opt_str_view, str_eq, string_of, trim, trim_range};
use vstd::prelude::*;
use vstd::string::*;

verus! {

/// Attempts allowed to enter a code.
pub const MAX_ATTEMPTS: u8 = 3;

pub enum MfaError {
    /// The last code entered was no six-digit number.
    MalformedCode,
    /// The device belongs to another account than the profile's identity.
    AccountMismatch { mfa_account: String, profile_account: String },
    /// The identity service refused the code at the last attempt.
    RetriesExhausted,
}

/// How an attempt ended.
#[derive(Debug, Clone, Copy, PartialEq, Eq, Structural)]
pub enum AttemptOutcome {
    /// The code was rejected here; the identity service was not asked.
    Malformed,
    /// The identity service refused the code or could not be reached.
    Refused,
    Granted,
}

pub enum MfaStep {
    /// Ask for a code; `attempt` counts from one.
    Prompt { attempt: u8 },
    /// Hand the session token to the caller.
    Deliver,
    Fail(MfaError),
}

/// Six decimal digits.
pub open spec fn is_code(s: Seq<char>) -> bool {
    s.len() == 6 && forall|i: int| 0 <= i < 6 ==> 0x30 <= (#[trigger] s[i]) as u32 <= 0x39
}

/// The device and the identity are known to belong to different accounts.
pub open spec fn accounts_differ(mfa_serial: Seq<char>, reported: Option<Seq<char>>) -> bool {
    account_of_arn(mfa_serial) is Some && reported is Some && account_of_arn(mfa_serial)->0
        != reported->0
}

/// What follows the attempt numbered `attempt`.
pub open spec fn step_after(attempt: u8, outcome: AttemptOutcome) -> MfaStep {
    match outcome {
        AttemptOutcome::Granted => MfaStep::Deliver,
        AttemptOutcome::Malformed => if attempt < MAX_ATTEMPTS {
            MfaStep::Prompt { attempt: (attempt + 1) as u8 }
        } else {
            MfaStep::Fail(MfaError::MalformedCode)
        },
        AttemptOutcome::Refused => if attempt < MAX_ATTEMPTS {
            MfaStep::Prompt { attempt: (attempt + 1) as u8 }
        } else {
            MfaStep::Fail(MfaError::RetriesExhausted)
        },
    }
}

/// The code that was entered, without surrounding white space, where it is
/// six decimal digits.
pub fn accept_code(entered: &str) -> (r: Option<String>)
    ensures
        match r {
            Some(code) => code@ == trim(entered@) && is_code(code@),
            None => !is_code(trim(entered@)),
        },
{
    let chars = chars_of(entered);
    assert(chars@.subrange(0, chars@.len() as int) =~= chars@);
    let (a, b) = trim_range(&chars, 0, chars.len());
    let ghost t = chars@.subrange(a as int, b as int);
    if b - a != 6 {
        return None;
    }
    let mut i: usize = a;
    while i < b
        invariant
            a <= i <= b <= chars.len(),
            b - a == 6,
            t == chars@.subrange(a as int, b as int),
            t == trim(entered@),
            forall|j: int| 0 <= j < i - a ==> 0x30 <= (#[trigger] t[j]) as u32 <= 0x39,
        decreases b - i,
    {
        let n: u32 = chars[i] as u32;
        if n < 0x30 || n > 0x39 {
            assert(t[i - a] == chars@[i as int]);
            assert(!(0x30 <= t[i - a] as u32 <= 0x39));
            return None;
        }
        i += 1;
    }
    Some(string_of(&chars, a, b))
}

/// Whether the serial names an account, so that the identity of the profile
/// is to be checked before the first prompt.
pub fn needs_account_check(mfa_serial: &str) -> (r: bool)
    ensures
        r == account_of_arn(mfa_serial@) is Some,
{
    extract_account_from_arn(mfa_serial).is_some()
}

/// Compares the account in the serial with the one the identity service
/// reported for the profile. An account that could not be determined, on
/// either side, is no mismatch.
pub fn verify_account(mfa_serial: &str, reported: Option<&str>) -> (r: Result<(), MfaError>)
    ensures
        match r {
            Ok(_) => !accounts_differ(mfa_serial@, opt_str_view(reported)),
            Err(e) => {
                &&& accounts_differ(mfa_serial@, opt_str_view(reported))
                &&& e matches MfaError::AccountMismatch { mfa_account, profile_account }
                &&& Some(mfa_account@) == account_of_arn(mfa_serial@)
                &&& Some(profile_account@) == opt_str_view(reported)
            },
        },
{
    match extract_account_from_arn(mfa_serial) {
        Some(mfa_account) => match reported {
            Some(profile_account) => {
                if str_eq(mfa_account.as_str(), profile_account) {
                    Ok(())
                } else {
                    Err(
                        MfaError::AccountMismatch {
                            mfa_account,
                            profile_account: String::from_str(profile_account),
                        },
                    )
                }
            },
            None => Ok(()),
        },
        None => Ok(()),
    }
}

/// How a sign-in begins, once the account of the profile's identity was
/// asked for where the serial names one: a mismatch ends it before any code
/// is asked; anything else leads to the first prompt.
pub fn first_step(mfa_serial: &str, reported: Option<&str>) -> (r: MfaStep)
    ensures
        match r {
            MfaStep::Prompt { attempt } => attempt == 1 && !accounts_differ(
                mfa_serial@,
                opt_str_view(reported),
            ),
            MfaStep::Fail(e) => {
                &&& accounts_differ(mfa_serial@, opt_str_view(reported))
                &&& e matches MfaError::AccountMismatch { mfa_account, profile_account }
                &&& Some(mfa_account@) == account_of_arn(mfa_serial@)
                &&& Some(profile_account@) == opt_str_view(reported)
            },
            MfaStep::Deliver => false,
        },
{
    match verify_account(mfa_serial, reported) {
        Ok(_) => MfaStep::Prompt { attempt: 1 },
        Err(e) => MfaStep::Fail(e),
    }
}

/// What follows the attempt numbered `attempt`: a granted token is
/// delivered; before the last attempt a failure leads to the next prompt; at
/// the last, a malformed code and a refusal end the sign-in, each with its
/// own error.
pub fn next_step(attempt: u8, outcome: AttemptOutcome) -> (r: MfaStep)
    ensures
        r == step_after(attempt, outcome),
{
    match outcome {
        AttemptOutcome::Granted => MfaStep::Deliver,
        AttemptOutcome::Malformed => if attempt < MAX_ATTEMPTS {
            MfaStep::Prompt { attempt: attempt + 1 }
        } else {
            MfaStep::Fail(MfaError::MalformedCode)
        },
        AttemptOutcome::Refused => if attempt < MAX_ATTEMPTS {
            MfaStep::Prompt { attempt: attempt + 1 }
        } else {
            MfaStep::Fail(MfaError::RetriesExhausted)
        },
    }
}

/// No sign-in asks for a code more than `MAX_ATTEMPTS` times: a prompt that
/// follows an attempt within the limit is within the limit too.
pub proof fn lemma_attempts_bounded(attempt: u8, outcome: AttemptOutcome)
    requires
        1 <= attempt <= MAX_ATTEMPTS,
    ensures
        step_after(attempt, outcome) matches MfaStep::Prompt { attempt: next } ==> next == attempt
            + 1 && next <= MAX_ATTEMPTS,
{
}

/// What is said of a device that belongs to another account than the
/// profile's identity.
pub open spec fn mismatch_text(
    mfa_account: Seq<char>,
    profile_account: Seq<char>,
    profile: Seq<char>,
) -> Seq<char> {
    "MFA serial account ("@ + mfa_account + ") does not match profile account ("@
        + profile_account + "). Update 'mfa_serial' in profile '"@ + profile
        + "', or use credentials for the correct account."@
}

/// The message for an account mismatch: it names both accounts and the
/// field to correct.
pub fn mismatch_message(mfa_account: &str, profile_account: &str, profile: &str) -> (r: String)
    ensures
        r@ == mismatch_text(mfa_account@, profile_account@, profile@),
{
    let mut r = String::from_str("MFA serial account (");
    r.append(mfa_account);
    r.append(") does not match profile account (");
    r.append(profile_account);
    r.append("). Update 'mfa_serial' in profile '");
    r.append(profile);
    r.append("', or use credentials for the correct account.");
    r
}

} // verus!
