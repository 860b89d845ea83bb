//! The identity service, reached through an external command-line program:
//! the arguments of each call, its time limit, and the reading of its reply.

use crate::text::{push_signed_decimal, signed_decimal, views};
use vstd::prelude::*;
use vstd::string::*;

verus! {

/// Name of the external program.
pub const PROGRAM: &'static str = "aws";

/// Seconds allowed to an identity check.
pub const IDENTITY_TIMEOUT_SECS: u64 = 5;

/// Seconds allowed to a call that hands out credentials.
pub const CREDENTIAL_TIMEOUT_SECS: u64 = 30;

/// A temporary credential set, held in memory for one invocation.
#[derive(Debug, Clone)]
pub struct Credential {
    pub access_key_id: String,
    pub secret_access_key: String,
    pub session_token: String,
    /// As the identity service wrote it; not read further.
    pub expiration: String,
}

pub struct CredentialView {
    pub access_key_id: Seq<char>,
    pub secret_access_key: Seq<char>,
    pub session_token: Seq<char>,
    pub expiration: Seq<char>,
}

impl View for Credential {
    type V = CredentialView;

    open spec fn view(&self) -> CredentialView {
        CredentialView {
            access_key_id: self.access_key_id@,
            secret_access_key: self.secret_access_key@,
            session_token: self.session_token@,
            expiration: self.expiration@,
        }
    }
}

/// How a bounded call of the external program ended.
pub enum ProcessReply {
    /// The time limit passed before the program ended.
    TimedOut,
    /// The program could not be started.
    SpawnFailed,
    Exited { success: bool, stdout: String, stderr: String },
}

pub enum ServiceError {
    Timeout,
    SpawnFailed,
    /// The program ended with a status other than zero; what it wrote to its
    /// diagnostic stream.
    NonZeroExit { stderr: String },
    MalformedResponse,
    /// The reply is well-formed and names no account.
    AccountMissing,
}

/// `serde_json::Value`, carried through as it is: nothing inside it is
/// seen here.
#[verifier::external_type_specification]
#[verifier::external_body]
pub struct ExJsonValue(serde_json::Value);

/// `serde_json::Error`, carried through as it is.
#[verifier::external_type_specification]
#[verifier::external_body]
pub struct ExJsonError(serde_json::Error);

/// The JSON document that a text states, or `None` where the text is no
/// JSON.
pub uninterp spec fn json_document(text: Seq<char>) -> Option<serde_json::Value>;

/// The member `key` of a JSON value: `None` where the value is no object or
/// has no such member.
pub uninterp spec fn json_member(value: serde_json::Value, key: Seq<char>) -> Option<
    serde_json::Value,
>;

/// The text that a JSON value is: `None` where it is no string.
pub uninterp spec fn json_text(value: serde_json::Value) -> Option<Seq<char>>;

/// `serde_json::from_str` for a `serde_json::Value`. Whether the text is
/// taken, and the document it gives, depend on the text alone.
#[verifier::external_body]
fn parse_json(text: &str) -> (r: Result<serde_json::Value, serde_json::Error>)
    ensures
        match r {
            Ok(document) => json_document(text@) == Some(document),
            Err(_) => json_document(text@) is None,
        },
{
    serde_json::from_str::<serde_json::Value>(text)
}

/// `serde_json::Value::get` with a string key. The member found depends on
/// the value and the key alone.
#[verifier::external_body]
fn member<'a>(value: &'a serde_json::Value, key: &str) -> (r: Option<&'a serde_json::Value>)
    ensures
        match r {
            Some(m) => json_member(*value, key@) == Some(*m),
            None => json_member(*value, key@) is None,
        },
{
    value.get(key)
}

/// `serde_json::Value::as_str`, the text being copied. It depends on the
/// value alone.
#[verifier::external_body]
fn text_of(value: &serde_json::Value) -> (r: Option<String>)
    ensures
        match r {
            Some(s) => json_text(*value) == Some(s@),
            None => json_text(*value) is None,
        },
{
    value.as_str().map(String::from)
}

pub open spec fn identity_args(profile: Seq<char>) -> Seq<Seq<char>> {
    seq!["sts"@, "get-caller-identity"@, "--profile"@, profile, "--output"@, "json"@]
}

pub open spec fn session_token_args(profile: Seq<char>, mfa_serial: Seq<char>, code: Seq<char>) -> Seq<
    Seq<char>,
> {
    seq![
        "sts"@,
        "get-session-token"@,
        "--serial-number"@,
        mfa_serial,
        "--token-code"@,
        code,
        "--profile"@,
        profile,
        "--duration-seconds"@,
        "3600"@,
        "--output"@,
        "json"@,
    ]
}

pub open spec fn assume_role_profile_args(
    role_arn: Seq<char>,
    session_name: Seq<char>,
    profile: Seq<char>,
) -> Seq<Seq<char>> {
    seq![
        "sts"@,
        "assume-role"@,
        "--role-arn"@,
        role_arn,
        "--role-session-name"@,
        session_name,
        "--profile"@,
        profile,
        "--duration-seconds"@,
        "3600"@,
        "--output"@,
        "json"@,
    ]
}

pub open spec fn assume_role_overlay_args(role_arn: Seq<char>, session_name: Seq<char>) -> Seq<
    Seq<char>,
> {
    seq![
        "sts"@,
        "assume-role"@,
        "--role-arn"@,
        role_arn,
        "--role-session-name"@,
        session_name,
        "--duration-seconds"@,
        "3600"@,
        "--output"@,
        "json"@,
    ]
}

/// Arguments of the identity check for `profile`.
pub fn check_identity_args(profile: &str) -> (v: Vec<String>)
    ensures
        views(v@) == identity_args(profile@),
{
    let mut v: Vec<String> = Vec::new();
    v.push(String::from_str("sts"));
    v.push(String::from_str("get-caller-identity"));
    v.push(String::from_str("--profile"));
    v.push(String::from_str(profile));
    v.push(String::from_str("--output"));
    v.push(String::from_str("json"));
    assert(views(v@) =~= identity_args(profile@));
    v
}

/// Arguments of the request for a session token, valid for an hour.
pub fn get_session_token_args(profile: &str, mfa_serial: &str, code: &str) -> (v: Vec<String>)
    ensures
        views(v@) == session_token_args(profile@, mfa_serial@, code@),
{
    let mut v: Vec<String> = Vec::new();
    v.push(String::from_str("sts"));
    v.push(String::from_str("get-session-token"));
    v.push(String::from_str("--serial-number"));
    v.push(String::from_str(mfa_serial));
    v.push(String::from_str("--token-code"));
    v.push(String::from_str(code));
    v.push(String::from_str("--profile"));
    v.push(String::from_str(profile));
    v.push(String::from_str("--duration-seconds"));
    v.push(String::from_str("3600"));
    v.push(String::from_str("--output"));
    v.push(String::from_str("json"));
    assert(views(v@) =~= session_token_args(profile@, mfa_serial@, code@));
    v
}

/// Arguments of a role assumption that leaves authentication to the named
/// profile.
pub fn assume_role_with_profile_args(role_arn: &str, session_name: &str, profile: &str) -> (v: Vec<
    String,
>)
    ensures
        views(v@) == assume_role_profile_args(role_arn@, session_name@, profile@),
{
    let mut v: Vec<String> = Vec::new();
    v.push(String::from_str("sts"));
    v.push(String::from_str("assume-role"));
    v.push(String::from_str("--role-arn"));
    v.push(String::from_str(role_arn));
    v.push(String::from_str("--role-session-name"));
    v.push(String::from_str(session_name));
    v.push(String::from_str("--profile"));
    v.push(String::from_str(profile));
    v.push(String::from_str("--duration-seconds"));
    v.push(String::from_str("3600"));
    v.push(String::from_str("--output"));
    v.push(String::from_str("json"));
    assert(views(v@) =~= assume_role_profile_args(role_arn@, session_name@, profile@));
    v
}

/// Arguments of a role assumption whose credentials come as an overlay on
/// the call's environment: no profile is named.
pub fn assume_role_with_env_args(role_arn: &str, session_name: &str) -> (v: Vec<String>)
    ensures
        views(v@) == assume_role_overlay_args(role_arn@, session_name@),
{
    let mut v: Vec<String> = Vec::new();
    v.push(String::from_str("sts"));
    v.push(String::from_str("assume-role"));
    v.push(String::from_str("--role-arn"));
    v.push(String::from_str(role_arn));
    v.push(String::from_str("--role-session-name"));
    v.push(String::from_str(session_name));
    v.push(String::from_str("--duration-seconds"));
    v.push(String::from_str("3600"));
    v.push(String::from_str("--output"));
    v.push(String::from_str("json"));
    assert(views(v@) =~= assume_role_overlay_args(role_arn@, session_name@));
    v
}

/// The name of a role session begun at `timestamp` seconds since the epoch.
pub open spec fn session_name_at(timestamp: int) -> Seq<char> {
    "awx-"@ + signed_decimal(timestamp)
}

/// The name of a role session begun at `timestamp`.
pub fn session_name(timestamp: i64) -> (r: String)
    ensures
        r@ == session_name_at(timestamp as int),
{
    let mut r = String::from_str("awx-");
    push_signed_decimal(&mut r, timestamp);
    r
}

/// `chrono::Utc::now`, as whole seconds since the epoch. Nothing is claimed
/// of the number: it is the clock's. The call does not return where the
/// system clock stands before the epoch.
#[verifier::external_body]
fn unix_time_now() -> (r: i64) {
    chrono::Utc::now().timestamp()
}

/// A session name made from the clock, so that two invocations do not share
/// one.
pub fn fresh_session_name() -> (r: String)
    ensures
        exists|t: int| r@ == session_name_at(t),
{
    let t = unix_time_now();
    let r = session_name(t);
    assert(r@ == session_name_at(t as int));
    r
}

/// What an identity check tells: the program ended, with success or
/// without; a time limit or a failed start is an error, not a `false`.
pub fn identity_check(reply: &ProcessReply) -> (r: Result<bool, ServiceError>)
    ensures
        match *reply {
            ProcessReply::Exited { success, .. } => r == Ok::<bool, ServiceError>(success),
            ProcessReply::TimedOut => r == Err::<bool, ServiceError>(ServiceError::Timeout),
            ProcessReply::SpawnFailed => r == Err::<bool, ServiceError>(ServiceError::SpawnFailed),
        },
{
    match reply {
        ProcessReply::Exited { success, .. } => Ok(*success),
        ProcessReply::TimedOut => Err(ServiceError::Timeout),
        ProcessReply::SpawnFailed => Err(ServiceError::SpawnFailed),
    }
}

/// What the program wrote, where it ended with success; else the error that
/// its ending stands for.
pub fn reply_output(reply: &ProcessReply) -> (r: Result<String, ServiceError>)
    ensures
        match *reply {
            ProcessReply::Exited { success, stdout, stderr } => if success {
                r == Ok::<String, ServiceError>(stdout)
            } else {
                r == Err::<String, ServiceError>(ServiceError::NonZeroExit { stderr })
            },
            ProcessReply::TimedOut => r == Err::<String, ServiceError>(ServiceError::Timeout),
            ProcessReply::SpawnFailed => r == Err::<String, ServiceError>(
                ServiceError::SpawnFailed,
            ),
        },
{
    match reply {
        ProcessReply::Exited { success, stdout, stderr } => if *success {
            Ok(stdout.clone())
        } else {
            Err(ServiceError::NonZeroExit { stderr: stderr.clone() })
        },
        ProcessReply::TimedOut => Err(ServiceError::Timeout),
        ProcessReply::SpawnFailed => Err(ServiceError::SpawnFailed),
    }
}

/// The account that a document names: the text of its member `Account`.
pub open spec fn account_named(document: serde_json::Value) -> Result<Seq<char>, ServiceError> {
    match json_member(document, "Account"@) {
        None => Err(ServiceError::AccountMissing),
        Some(m) => match json_text(m) {
            Some(account) => Ok(account),
            None => Err(ServiceError::AccountMissing),
        },
    }
}

/// What the output of an identity check says of the account: text that is
/// no JSON is a malformed response; a document without a text member
/// `Account` names no account.
pub open spec fn account_stated(stdout: Seq<char>) -> Result<Seq<char>, ServiceError> {
    match json_document(stdout) {
        None => Err(ServiceError::MalformedResponse),
        Some(document) => account_named(document),
    }
}

/// The account that a parsed identity reply names in its member `Account`.
pub fn account_of_document(document: &serde_json::Value) -> (r: Result<String, ServiceError>)
    ensures
        match r {
            Ok(account) => account_named(*document) == Ok::<Seq<char>, ServiceError>(account@),
            Err(e) => account_named(*document) == Err::<Seq<char>, ServiceError>(e),
        },
{
    match member(document, "Account") {
        Some(m) => match text_of(m) {
            Some(account) => Ok(account),
            None => Err(ServiceError::AccountMissing),
        },
        None => Err(ServiceError::AccountMissing),
    }
}

/// The account named in the output of an identity check.
pub fn account_of_output(stdout: &str) -> (r: Result<String, ServiceError>)
    ensures
        match r {
            Ok(account) => account_stated(stdout@) == Ok::<Seq<char>, ServiceError>(account@),
            Err(e) => account_stated(stdout@) == Err::<Seq<char>, ServiceError>(e),
        },
{
    match parse_json(stdout) {
        Ok(document) => account_of_document(&document),
        Err(_) => Err(ServiceError::MalformedResponse),
    }
}

/// The account that owns the identity of a profile, from the reply to its
/// identity check.
pub fn account_id(reply: &ProcessReply) -> (r: Result<String, ServiceError>)
    ensures
        match *reply {
            ProcessReply::Exited { success, stdout, stderr } => if success {
                match r {
                    Ok(account) => account_stated(stdout@) == Ok::<Seq<char>, ServiceError>(
                        account@,
                    ),
                    Err(e) => account_stated(stdout@) == Err::<Seq<char>, ServiceError>(e),
                }
            } else {
                r == Err::<String, ServiceError>(ServiceError::NonZeroExit { stderr })
            },
            ProcessReply::TimedOut => r == Err::<String, ServiceError>(ServiceError::Timeout),
            ProcessReply::SpawnFailed => r == Err::<String, ServiceError>(
                ServiceError::SpawnFailed,
            ),
        },
{
    match reply_output(reply) {
        Ok(stdout) => account_of_output(stdout.as_str()),
        Err(e) => Err(e),
    }
}

/// The credentials read from a reply, where the program ended with success
/// and `parsed` holds what its output stated; `None` there is a malformed
/// response.
pub fn credentials_of_reply(reply: &ProcessReply, parsed: Option<Credential>) -> (r: Result<
    Credential,
    ServiceError,
>)
    ensures
        match *reply {
            ProcessReply::Exited { success, stdout, stderr } => if !success {
                r == Err::<Credential, ServiceError>(ServiceError::NonZeroExit { stderr })
            } else {
                match parsed {
                    Some(c) => r == Ok::<Credential, ServiceError>(c),
                    None => r == Err::<Credential, ServiceError>(ServiceError::MalformedResponse),
                }
            },
            ProcessReply::TimedOut => r == Err::<Credential, ServiceError>(ServiceError::Timeout),
            ProcessReply::SpawnFailed => r == Err::<Credential, ServiceError>(
                ServiceError::SpawnFailed,
            ),
        },
{
    match reply_output(reply) {
        Ok(_) => match parsed {
            Some(c) => Ok(c),
            None => Err(ServiceError::MalformedResponse),
        },
        Err(e) => Err(e),
    }
}

} // verus!
