//! Credential resolution: which way of acquiring credentials a profile
//! calls for, the steps that carry it out, and the sign-on check that
//! precedes it.

use crate::mfa::MfaError;
use crate::profile::{
    opt_view, profile_position, ConfigError, Profile, ProfileStore, ProfileView,
};
use crate::sts::{Credential, ProcessReply, ServiceError};
use vstd::prelude::*;
use vstd::string::*;

verus! {

/// Exit code of a run that went through.
pub const EXIT_OK: i32 = 0;

/// Exit code of a run that failed in setup or resolution.
pub const EXIT_ERROR: i32 = 1;

/// Exit code of an unattended run whose profile needs a sign-on.
pub const EXIT_SSO_LOGIN_REQUIRED: i32 = 2;

/// Exit code of a run whose last multi-factor attempt was refused.
pub const EXIT_MFA_EXHAUSTED: i32 = 3;

#[derive(Debug, Clone, Copy, PartialEq, Eq, Structural)]
pub enum ProfileError {
    /// The table has no profile of the selected name.
    ProfileNotFound,
    /// A role profile names no source profile, or one that the table lacks.
    SourceProfileNotFound,
    /// The source profile is itself a role: chains end after one hop.
    UnsupportedChain,
    /// The source profile has neither sign-on nor keys.
    UnsupportedSourceAuth,
}

/// The way of acquiring credentials that a profile calls for.
pub enum Plan {
    /// The credentials exist outside: a sign-on cache, or keys that go to
    /// the delegate as they are.
    NoInjectionNeeded,
    /// A session token for the profile's keys, after a multi-factor code.
    SessionToken { profile: String, mfa_serial: String },
    /// A session token for the source profile, then the role under it.
    AssumeRoleWithSession { role_arn: String, source: String, mfa_serial: String },
    /// The role, with authentication left to the source profile.
    AssumeRoleWithProfile { role_arn: String, source: String },
}

pub enum PlanView {
    NoInjectionNeeded,
    SessionToken { profile: Seq<char>, mfa_serial: Seq<char> },
    AssumeRoleWithSession { role_arn: Seq<char>, source: Seq<char>, mfa_serial: Seq<char> },
    AssumeRoleWithProfile { role_arn: Seq<char>, source: Seq<char> },
}

impl View for Plan {
    type V = PlanView;

    open spec fn view(&self) -> PlanView {
        match *self {
            Plan::NoInjectionNeeded => PlanView::NoInjectionNeeded,
            Plan::SessionToken { profile, mfa_serial } => PlanView::SessionToken {
                profile: profile@,
                mfa_serial: mfa_serial@,
            },
            Plan::AssumeRoleWithSession {
                role_arn,
                source,
                mfa_serial,
            } => PlanView::AssumeRoleWithSession {
                role_arn: role_arn@,
                source: source@,
                mfa_serial: mfa_serial@,
            },
            Plan::AssumeRoleWithProfile { role_arn, source } => PlanView::AssumeRoleWithProfile {
                role_arn: role_arn@,
                source: source@,
            },
        }
    }
}

/// The plan for a role profile whose source profile is `source`.
pub open spec fn planned_for_source(p: ProfileView, source: ProfileView) -> Result<
    PlanView,
    ProfileError,
> {
    if source.is_role() {
        Err(ProfileError::UnsupportedChain)
    } else if source.requires_mfa() && source.is_static() {
        Ok(
            PlanView::AssumeRoleWithSession {
                role_arn: p.role_arn->0,
                source: source.name,
                mfa_serial: source.mfa_serial->0,
            },
        )
    } else if source.is_sso() || source.is_static() {
        Ok(PlanView::AssumeRoleWithProfile { role_arn: p.role_arn->0, source: source.name })
    } else {
        Err(ProfileError::UnsupportedSourceAuth)
    }
}

/// The plan for `p` among the profiles of `table`. A role comes first: its
/// source profile decides. Keys with a multi-factor device call for a
/// session token. Everything else needs nothing.
pub open spec fn planned(p: ProfileView, table: Seq<ProfileView>) -> Result<PlanView, ProfileError> {
    if p.is_role() {
        if p.source_profile is None {
            Err(ProfileError::SourceProfileNotFound)
        } else {
            let i = profile_position(table, p.source_profile->0);
            if i >= table.len() {
                Err(ProfileError::SourceProfileNotFound)
            } else {
                planned_for_source(p, table[i as int])
            }
        }
    } else if p.requires_mfa() && p.is_static() {
        Ok(PlanView::SessionToken { profile: p.name, mfa_serial: p.mfa_serial->0 })
    } else {
        Ok(PlanView::NoInjectionNeeded)
    }
}

/// Decides how credentials are acquired for `profile`.
pub fn plan_resolution(profile: &Profile, store: &ProfileStore) -> (r: Result<Plan, ProfileError>)
    ensures
        match r {
            Ok(plan) => planned(profile@, store@) == Ok::<PlanView, ProfileError>(plan@),
            Err(e) => planned(profile@, store@) == Err::<PlanView, ProfileError>(e),
        },
{
    match &profile.role_arn {
        Some(role_arn) => {
            let source_name = match &profile.source_profile {
                Some(s) => s,
                None => {
                    return Err(ProfileError::SourceProfileNotFound);
                },
            };
            let source = match store.get(source_name.as_str()) {
                Some(s) => s,
                None => {
                    return Err(ProfileError::SourceProfileNotFound);
                },
            };
            if source.is_role() {
                return Err(ProfileError::UnsupportedChain);
            }
            match &source.mfa_serial {
                Some(mfa_serial) => {
                    if source.is_static() {
                        return Ok(
                            Plan::AssumeRoleWithSession {
                                role_arn: role_arn.clone(),
                                source: source.name.clone(),
                                mfa_serial: mfa_serial.clone(),
                            },
                        );
                    }
                },
                None => {},
            }
            if source.is_sso() || source.is_static() {
                Ok(
                    Plan::AssumeRoleWithProfile {
                        role_arn: role_arn.clone(),
                        source: source.name.clone(),
                    },
                )
            } else {
                Err(ProfileError::UnsupportedSourceAuth)
            }
        },
        None => {
            match &profile.mfa_serial {
                Some(mfa_serial) => {
                    if profile.is_static() {
                        return Ok(
                            Plan::SessionToken {
                                profile: profile.name.clone(),
                                mfa_serial: mfa_serial.clone(),
                            },
                        );
                    }
                },
                None => {},
            }
            Ok(Plan::NoInjectionNeeded)
        },
    }
}

/// Only one hop is taken: no plan assumes a role under a source profile
/// that is itself a role.
pub proof fn lemma_single_hop(p: ProfileView, table: Seq<ProfileView>)
    requires
        p.is_role(),
        p.source_profile is Some,
        profile_position(table, p.source_profile->0) < table.len(),
        table[profile_position(table, p.source_profile->0) as int].is_role(),
    ensures
        planned(p, table) == Err::<PlanView, ProfileError>(ProfileError::UnsupportedChain),
{
}

/// A profile that is no role and lacks either keys or a multi-factor device
/// needs no credentials from here.
pub proof fn lemma_plain_profile_needs_nothing(p: ProfileView, table: Seq<ProfileView>)
    requires
        !p.is_role(),
        !(p.requires_mfa() && p.is_static()),
    ensures
        planned(p, table) == Ok::<PlanView, ProfileError>(PlanView::NoInjectionNeeded),
{
}

/// A role never goes without credentials from here: its plan is a role
/// assumption or an error.
pub proof fn lemma_role_is_assumed(p: ProfileView, table: Seq<ProfileView>)
    requires
        p.is_role(),
    ensures
        match planned(p, table) {
            Ok(PlanView::AssumeRoleWithSession { role_arn, .. }) => Some(role_arn) == p.role_arn,
            Ok(PlanView::AssumeRoleWithProfile { role_arn, .. }) => Some(role_arn) == p.role_arn,
            Ok(_) => false,
            Err(_) => true,
        },
{
}

/// What resolution ends with.
pub enum Outcome {
    NoInjectionNeeded,
    Credentials(Credential),
}

/// How a role assumption authenticates.
pub enum AuthContext {
    /// The call names this profile, and the external program finds its
    /// credentials itself.
    NamedProfile(String),
    /// The call's environment is overlaid with these credentials; no
    /// profile is named and the ambient environment is not consulted.
    Overlay(Credential),
}

pub enum ResolveEvent {
    /// Nothing was done yet.
    Start,
    /// The multi-factor sign-in delivered a session token.
    SessionToken(Credential),
    /// The role assumption delivered credentials.
    RoleCredentials(Credential),
}

pub enum ResolveAction {
    /// Sign in with a multi-factor code for `profile`.
    AcquireSessionToken { profile: String, mfa_serial: String },
    /// Assume the role under a fresh session name.
    AssumeRole { role_arn: String, auth: AuthContext },
    Finish(Outcome),
}

/// The action that follows `event` under `plan`, or `None` where the plan
/// has no such event.
pub open spec fn resolve_step(plan: Plan, event: ResolveEvent) -> Option<ResolveAction> {
    match (plan, event) {
        (Plan::NoInjectionNeeded, ResolveEvent::Start) => Some(
            ResolveAction::Finish(Outcome::NoInjectionNeeded),
        ),
        (Plan::SessionToken { profile, mfa_serial }, ResolveEvent::Start) => Some(
            ResolveAction::AcquireSessionToken { profile, mfa_serial },
        ),
        (Plan::SessionToken { .. }, ResolveEvent::SessionToken(c)) => Some(
            ResolveAction::Finish(Outcome::Credentials(c)),
        ),
        (Plan::AssumeRoleWithSession { source, mfa_serial, .. }, ResolveEvent::Start) => Some(
            ResolveAction::AcquireSessionToken { profile: source, mfa_serial },
        ),
        (Plan::AssumeRoleWithSession { role_arn, .. }, ResolveEvent::SessionToken(c)) => Some(
            ResolveAction::AssumeRole { role_arn, auth: AuthContext::Overlay(c) },
        ),
        (Plan::AssumeRoleWithSession { .. }, ResolveEvent::RoleCredentials(c)) => Some(
            ResolveAction::Finish(Outcome::Credentials(c)),
        ),
        (Plan::AssumeRoleWithProfile { role_arn, source }, ResolveEvent::Start) => Some(
            ResolveAction::AssumeRole { role_arn, auth: AuthContext::NamedProfile(source) },
        ),
        (Plan::AssumeRoleWithProfile { .. }, ResolveEvent::RoleCredentials(c)) => Some(
            ResolveAction::Finish(Outcome::Credentials(c)),
        ),
        _ => None,
    }
}

/// The action that follows `event` under `plan`. Credentials that the
/// identity service delivered are passed on as they came.
pub fn next_action(plan: &Plan, event: ResolveEvent) -> (r: Option<ResolveAction>)
    ensures
        r == resolve_step(*plan, event),
{
    match plan {
        Plan::NoInjectionNeeded => match event {
            ResolveEvent::Start => Some(ResolveAction::Finish(Outcome::NoInjectionNeeded)),
            _ => None,
        },
        Plan::SessionToken { profile, mfa_serial } => match event {
            ResolveEvent::Start => Some(
                ResolveAction::AcquireSessionToken {
                    profile: profile.clone(),
                    mfa_serial: mfa_serial.clone(),
                },
            ),
            ResolveEvent::SessionToken(c) => Some(ResolveAction::Finish(Outcome::Credentials(c))),
            _ => None,
        },
        Plan::AssumeRoleWithSession { role_arn, source, mfa_serial } => match event {
            ResolveEvent::Start => Some(
                ResolveAction::AcquireSessionToken {
                    profile: source.clone(),
                    mfa_serial: mfa_serial.clone(),
                },
            ),
            ResolveEvent::SessionToken(c) => Some(
                ResolveAction::AssumeRole {
                    role_arn: role_arn.clone(),
                    auth: AuthContext::Overlay(c),
                },
            ),
            ResolveEvent::RoleCredentials(c) => Some(
                ResolveAction::Finish(Outcome::Credentials(c)),
            ),
        },
        Plan::AssumeRoleWithProfile { role_arn, source } => match event {
            ResolveEvent::Start => Some(
                ResolveAction::AssumeRole {
                    role_arn: role_arn.clone(),
                    auth: AuthContext::NamedProfile(source.clone()),
                },
            ),
            ResolveEvent::RoleCredentials(c) => Some(
                ResolveAction::Finish(Outcome::Credentials(c)),
            ),
            _ => None,
        },
    }
}

/// What the identity check told of a sign-on profile.
#[derive(Debug, Clone, Copy, PartialEq, Eq, Structural)]
pub enum Liveness {
    LoggedIn,
    /// The check ended cleanly and without success.
    NotLoggedIn,
    /// The check ran out of time or could not be started.
    Unknown,
}

#[derive(Debug, Clone, Copy, PartialEq, Eq, Structural)]
pub enum SsoAction {
    Proceed,
    /// Run the sign-on in the foreground, and fail if it fails.
    RunLogin,
    /// Print the command that signs on, and end with
    /// `EXIT_SSO_LOGIN_REQUIRED`.
    ExitLoginRequired,
}

/// The liveness that the result of an identity check stands for.
pub fn liveness_of(check: &Result<bool, ServiceError>) -> (r: Liveness)
    ensures
        r == match *check {
            Ok(true) => Liveness::LoggedIn,
            Ok(false) => Liveness::NotLoggedIn,
            Err(_) => Liveness::Unknown,
        },
{
    match check {
        Ok(true) => Liveness::LoggedIn,
        Ok(false) => Liveness::NotLoggedIn,
        Err(_) => Liveness::Unknown,
    }
}

/// What a sign-on profile calls for before resolution.
pub open spec fn sso_step(liveness: Liveness, unattended: bool) -> SsoAction {
    match liveness {
        Liveness::LoggedIn => SsoAction::Proceed,
        Liveness::NotLoggedIn => if unattended {
            SsoAction::ExitLoginRequired
        } else {
            SsoAction::RunLogin
        },
        Liveness::Unknown => if unattended {
            SsoAction::ExitLoginRequired
        } else {
            SsoAction::Proceed
        },
    }
}

/// What a sign-on profile calls for before resolution. Unattended, anything
/// but a live sign-on ends the run. Attended, a clean failure runs the
/// sign-on, and an unknown state is let pass.
pub fn sso_action(liveness: Liveness, unattended: bool) -> (r: SsoAction)
    ensures
        r == sso_step(liveness, unattended),
{
    match liveness {
        Liveness::LoggedIn => SsoAction::Proceed,
        Liveness::NotLoggedIn => if unattended {
            SsoAction::ExitLoginRequired
        } else {
            SsoAction::RunLogin
        },
        Liveness::Unknown => if unattended {
            SsoAction::ExitLoginRequired
        } else {
            SsoAction::Proceed
        },
    }
}

/// An unattended run never starts a sign-on.
pub proof fn lemma_unattended_never_logs_in(liveness: Liveness)
    ensures
        sso_step(liveness, true) != SsoAction::RunLogin,
        liveness != Liveness::LoggedIn ==> sso_step(liveness, true) == SsoAction::ExitLoginRequired,
{
}

/// How the profile to run under is found.
pub enum Selection {
    Named(String),
    /// The operator picks one from the table.
    Interactive,
}

/// The name that selection gives without asking the operator, if any.
pub open spec fn selected(
    flag: Option<Seq<char>>,
    unattended: bool,
    ambient: Option<Seq<char>>,
) -> Option<Seq<char>> {
    if flag is Some {
        flag
    } else if unattended {
        if ambient is Some {
            ambient
        } else {
            Some("default"@)
        }
    } else {
        None
    }
}

/// Finds the profile to run under: the flag comes first; unattended, the
/// active-profile variable and then `default`; else the operator is asked.
pub fn select_profile_name(flag: Option<String>, unattended: bool, ambient: Option<String>) -> (r:
    Selection)
    ensures
        match r {
            Selection::Named(name) => selected(opt_view(flag), unattended, opt_view(ambient))
                == Some(name@),
            Selection::Interactive => selected(opt_view(flag), unattended, opt_view(ambient))
                is None,
        },
{
    match flag {
        Some(name) => Selection::Named(name),
        None => if unattended {
            match ambient {
                Some(name) => Selection::Named(name),
                None => Selection::Named(String::from_str("default")),
            }
        } else {
            Selection::Interactive
        },
    }
}

/// The profile selected by name.
pub fn find_profile<'a>(store: &'a ProfileStore, name: &str) -> (r: Result<&'a Profile, ProfileError>)
    ensures
        match r {
            Ok(p) => store.find(name@) == Some(p@) && p@.name == name@,
            Err(e) => store.find(name@) is None && e == ProfileError::ProfileNotFound,
        },
{
    match store.get(name) {
        Some(p) => Ok(p),
        None => Err(ProfileError::ProfileNotFound),
    }
}

/// What a run does once the table is loaded.
pub enum Startup {
    /// The table is empty: the run fails.
    NoProfiles,
    /// Print the profiles found and end.
    PrintConfig,
    /// Clear the cache of this target and end. There is no cache: nothing
    /// is done.
    ClearCache(String),
    Resolve,
}

/// What a run does once the table is loaded: an empty table fails it; the
/// configuration flag comes before the cache flag, and both before
/// resolution.
pub fn startup(profile_count: usize, print_config: bool, clear_cache: Option<String>) -> (r: Startup)
    ensures
        r == if profile_count == 0 {
            Startup::NoProfiles
        } else if print_config {
            Startup::PrintConfig
        } else if clear_cache is Some {
            Startup::ClearCache(clear_cache->0)
        } else {
            Startup::Resolve
        },
{
    if profile_count == 0 {
        Startup::NoProfiles
    } else if print_config {
        Startup::PrintConfig
    } else {
        match clear_cache {
            Some(target) => Startup::ClearCache(target),
            None => Startup::Resolve,
        }
    }
}

/// Why a run ended without running the delegate to its end.
pub enum Failure {
    Config(ConfigError),
    Profile(ProfileError),
    Service(ServiceError),
    Mfa(MfaError),
    /// The downstream tool is missing or could not be started.
    DelegateSpawn,
    NoProfiles,
    /// The sign-on that was run ended without success.
    LoginFailed,
    /// An unattended run met a profile that needs a sign-on.
    SsoLoginRequired,
    /// The operator could not be asked.
    Prompt,
}

/// The exit code that a failure stands for.
pub open spec fn failure_code(f: Failure) -> i32 {
    match f {
        Failure::SsoLoginRequired => EXIT_SSO_LOGIN_REQUIRED,
        Failure::Mfa(MfaError::RetriesExhausted) => EXIT_MFA_EXHAUSTED,
        _ => EXIT_ERROR,
    }
}

/// The exit code of a failed run: 2 where an unattended run needs a
/// sign-on, 3 where the multi-factor attempts are used up, 1 for anything
/// else.
pub fn exit_code_of_failure(f: &Failure) -> (r: i32)
    ensures
        r == failure_code(*f),
        r != EXIT_OK,
{
    match f {
        Failure::SsoLoginRequired => EXIT_SSO_LOGIN_REQUIRED,
        Failure::Mfa(MfaError::RetriesExhausted) => EXIT_MFA_EXHAUSTED,
        _ => EXIT_ERROR,
    }
}

/// The arguments that sign a profile on.
pub open spec fn login_args(profile: Seq<char>) -> Seq<Seq<char>> {
    seq!["sso"@, "login"@, "--profile"@, profile]
}

/// What an unattended run says of a profile that needs a sign-on.
pub open spec fn login_required_text(profile: Seq<char>) -> Seq<char> {
    "SSO login required for profile \""@ + profile + "\". Run: aws sso login --profile "@ + profile
}

/// The arguments that sign `profile` on.
pub fn sso_login_args(profile: &str) -> (v: Vec<String>)
    ensures
        crate::text::views(v@) == login_args(profile@),
{
    let mut v: Vec<String> = Vec::new();
    v.push(String::from_str("sso"));
    v.push(String::from_str("login"));
    v.push(String::from_str("--profile"));
    v.push(String::from_str(profile));
    assert(crate::text::views(v@) =~= login_args(profile@));
    v
}

/// The message of an unattended run whose profile needs a sign-on: it holds
/// the command that signs on.
pub fn login_required_message(profile: &str) -> (r: String)
    ensures
        r@ == login_required_text(profile@),
{
    let mut r = String::from_str("SSO login required for profile \"");
    r.append(profile);
    r.append("\". Run: aws sso login --profile ");
    r.append(profile);
    r
}

/// How the sign-on that was run went.
pub fn after_login(success: bool) -> (r: Result<(), Failure>)
    ensures
        success ==> r is Ok,
        !success ==> r == Err::<(), Failure>(Failure::LoginFailed),
{
    if success {
        Ok(())
    } else {
        Err(Failure::LoginFailed)
    }
}

/// Whether the downstream tool is there: it was started and told its
/// version with success.
pub fn tool_present(reply: &ProcessReply) -> (r: Result<(), Failure>)
    ensures
        match *reply {
            ProcessReply::Exited { success: true, .. } => r is Ok,
            _ => r == Err::<(), Failure>(Failure::DelegateSpawn),
        },
{
    match reply {
        ProcessReply::Exited { success: true, .. } => Ok(()),
        _ => Err(Failure::DelegateSpawn),
    }
}

} // verus!
