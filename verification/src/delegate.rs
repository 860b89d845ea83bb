//! The delegate process: the environment laid over the ambient one, the
//! forwarding of signals while it runs, and the exit code its ending gives.

use crate::profile::{opt_view, Profile, ProfileView};
use crate::sts::{Credential, CredentialView};
use crate::text::{starts_with, str_eq, str_starts_with, views};
use vstd::prelude::*;
use vstd::string::*;

verus! {

/// Number of the interrupt signal.
pub const SIGINT: i32 = 2;

/// Number of the termination signal.
pub const SIGTERM: i32 = 15;

/// What the delegate rules read of the ambient environment, taken once.
pub struct AmbientEnv {
    /// `AWS_ACCESS_KEY_ID`
    pub access_key_id: Option<String>,
    /// `AWS_REGION`
    pub region: Option<String>,
    /// `AWS_DEFAULT_REGION`
    pub default_region: Option<String>,
}

pub struct AmbientEnvView {
    pub access_key_id: Option<Seq<char>>,
    pub region: Option<Seq<char>>,
    pub default_region: Option<Seq<char>>,
}

impl View for AmbientEnv {
    type V = AmbientEnvView;

    open spec fn view(&self) -> AmbientEnvView {
        AmbientEnvView {
            access_key_id: opt_view(self.access_key_id),
            region: opt_view(self.region),
            default_region: opt_view(self.default_region),
        }
    }
}

/// The variables set for the delegate on top of the ambient environment.
pub struct Overlay {
    /// `AWS_ACCESS_KEY_ID`
    pub access_key_id: Option<String>,
    /// `AWS_SECRET_ACCESS_KEY`
    pub secret_access_key: Option<String>,
    /// `AWS_SESSION_TOKEN`
    pub session_token: Option<String>,
    /// `AWS_DEFAULT_REGION`
    pub default_region: Option<String>,
    /// `AWS_PROFILE`
    pub profile: Option<String>,
}

pub struct OverlayView {
    pub access_key_id: Option<Seq<char>>,
    pub secret_access_key: Option<Seq<char>>,
    pub session_token: Option<Seq<char>>,
    pub default_region: Option<Seq<char>>,
    pub profile: Option<Seq<char>>,
}

impl View for Overlay {
    type V = OverlayView;

    open spec fn view(&self) -> OverlayView {
        OverlayView {
            access_key_id: opt_view(self.access_key_id),
            secret_access_key: opt_view(self.secret_access_key),
            session_token: opt_view(self.session_token),
            default_region: opt_view(self.default_region),
            profile: opt_view(self.profile),
        }
    }
}

/// The view of optional credentials.
pub open spec fn opt_credential_view(c: Option<&Credential>) -> Option<CredentialView> {
    match c {
        Some(c) => Some(c@),
        None => None,
    }
}

/// The downstream arguments hold a region flag.
pub open spec fn names_region(args: Seq<Seq<char>>) -> bool {
    exists|i: int| 0 <= i < args.len() && starts_with(#[trigger] args[i], "--region"@)
}

/// One argument passes a profile.
pub open spec fn is_profile_flag(arg: Seq<char>) -> bool {
    arg == "--profile"@ || starts_with(arg, "--profile="@)
}

/// The downstream arguments pass a profile of their own.
pub open spec fn names_profile(args: Seq<Seq<char>>) -> bool {
    exists|i: int| 0 <= i < args.len() && is_profile_flag(#[trigger] args[i])
}

/// The ambient environment defines an access key id that is not empty.
pub open spec fn ambient_key_set(env: AmbientEnvView) -> bool {
    env.access_key_id is Some && env.access_key_id->0.len() > 0
}

/// The profile's long-lived keys go to the delegate: there are no resolved
/// credentials, the profile holds keys, and the ambient environment holds none.
pub open spec fn injects_static(
    creds: Option<CredentialView>,
    profile: ProfileView,
    env: AmbientEnvView,
) -> bool {
    creds is None && profile.is_static() && !ambient_key_set(env)
}

/// The overlay for a delegate run with `args` under `profile`.
pub open spec fn overlay_for(
    args: Seq<Seq<char>>,
    creds: Option<CredentialView>,
    profile: ProfileView,
    env: AmbientEnvView,
) -> OverlayView {
    OverlayView {
        access_key_id: if creds is Some {
            Some(creds->0.access_key_id)
        } else if injects_static(creds, profile, env) {
            profile.aws_access_key_id
        } else {
            None
        },
        secret_access_key: if creds is Some {
            Some(creds->0.secret_access_key)
        } else if injects_static(creds, profile, env) {
            profile.aws_secret_access_key
        } else {
            None
        },
        session_token: if creds is Some {
            Some(creds->0.session_token)
        } else if injects_static(creds, profile, env) {
            profile.aws_session_token
        } else {
            None
        },
        default_region: if env.region is None && env.default_region is None && !names_region(args) {
            profile.region
        } else {
            None
        },
        profile: if names_profile(args) {
            None
        } else {
            Some(profile.name)
        },
    }
}

/// What the delegate sees of a variable: the overlay's value where the
/// overlay sets it, else the ambient one.
pub open spec fn observed(ambient: Option<Seq<char>>, overlay: Option<Seq<char>>) -> Option<
    Seq<char>,
> {
    if overlay is Some {
        overlay
    } else {
        ambient
    }
}

/// Whether the downstream arguments hold a region flag.
pub fn args_name_region(args: &Vec<String>) -> (r: bool)
    ensures
        r == names_region(views(args@)),
{
    let mut i: usize = 0;
    while i < args.len()
        invariant
            i <= args.len(),
            forall|j: int| 0 <= j < i ==> !starts_with(#[trigger] views(args@)[j], "--region"@),
        decreases args.len() - i,
    {
        if str_starts_with(args[i].as_str(), "--region") {
            assert(starts_with(views(args@)[i as int], "--region"@));
            return true;
        }
        i += 1;
    }
    false
}

/// Whether the downstream arguments pass a profile of their own.
pub fn args_name_profile(args: &Vec<String>) -> (r: bool)
    ensures
        r == names_profile(views(args@)),
{
    let mut i: usize = 0;
    while i < args.len()
        invariant
            i <= args.len(),
            forall|j: int| 0 <= j < i ==> !is_profile_flag(#[trigger] views(args@)[j]),
        decreases args.len() - i,
    {
        if str_eq(args[i].as_str(), "--profile") || str_starts_with(
            args[i].as_str(),
            "--profile=",
        ) {
            assert(is_profile_flag(views(args@)[i as int]));
            return true;
        }
        i += 1;
    }
    false
}

/// A copy of an optional string.
fn copy_of(o: &Option<String>) -> (r: Option<String>)
    ensures
        opt_view(r) == opt_view(*o),
{
    match o {
        Some(s) => Some(s.clone()),
        None => None,
    }
}

/// Builds the overlay for a delegate run with `args` under `profile`.
/// Resolved credentials are set whatever the environment holds. Without
/// them, the keys of a profile that has keys are set unless the ambient
/// environment already defines an access key id that is not empty. The
/// region is set only where no region variable is present and no argument
/// is a region flag; the profile's name only where no argument passes a
/// profile.
pub fn build_overlay(
    args: &Vec<String>,
    creds: Option<&Credential>,
    profile: &Profile,
    env: &AmbientEnv,
) -> (r: Overlay)
    ensures
        r@ == overlay_for(views(args@), opt_credential_view(creds), profile@, env@),
{
    let mut overlay = Overlay {
        access_key_id: None,
        secret_access_key: None,
        session_token: None,
        default_region: None,
        profile: None,
    };
    match creds {
        Some(c) => {
            overlay.access_key_id = Some(c.access_key_id.clone());
            overlay.secret_access_key = Some(c.secret_access_key.clone());
            overlay.session_token = Some(c.session_token.clone());
        },
        None => {
            if profile.is_static() {
                let present = match &env.access_key_id {
                    Some(v) => v.as_str().unicode_len() > 0,
                    None => false,
                };
                if !present {
                    overlay.access_key_id = copy_of(&profile.aws_access_key_id);
                    overlay.secret_access_key = copy_of(&profile.aws_secret_access_key);
                    overlay.session_token = copy_of(&profile.aws_session_token);
                }
            }
        },
    }
    if env.region.is_none() && env.default_region.is_none() && !args_name_region(args) {
        overlay.default_region = copy_of(&profile.region);
    }
    if !args_name_profile(args) {
        overlay.profile = Some(profile.name.clone());
    }
    overlay
}

/// With keys in the profile, no resolved credentials and no ambient access
/// key id, the delegate sees the profile's access key id.
pub proof fn lemma_static_key_injected(
    args: Seq<Seq<char>>,
    profile: ProfileView,
    env: AmbientEnvView,
)
    requires
        profile.is_static(),
        !ambient_key_set(env),
    ensures
        overlay_for(args, None, profile, env).access_key_id == profile.aws_access_key_id,
        observed(env.access_key_id, overlay_for(args, None, profile, env).access_key_id)
            == profile.aws_access_key_id,
{
}

/// With an ambient access key id that is not empty, and no resolved
/// credentials, the delegate sees the ambient value: a profile's keys never
/// replace it.
pub proof fn lemma_ambient_key_kept(
    args: Seq<Seq<char>>,
    profile: ProfileView,
    env: AmbientEnvView,
)
    requires
        ambient_key_set(env),
    ensures
        overlay_for(args, None, profile, env).access_key_id is None,
        overlay_for(args, None, profile, env).secret_access_key is None,
        overlay_for(args, None, profile, env).session_token is None,
        observed(env.access_key_id, overlay_for(args, None, profile, env).access_key_id)
            == env.access_key_id,
{
}

/// Without a profile flag among the arguments the delegate sees the selected
/// profile's name as the active profile; with one, the variable is left as
/// the ambient environment has it.
pub proof fn lemma_profile_selector(
    args: Seq<Seq<char>>,
    creds: Option<CredentialView>,
    profile: ProfileView,
    env: AmbientEnvView,
    ambient_profile: Option<Seq<char>>,
)
    ensures
        !names_profile(args) ==> observed(
            ambient_profile,
            overlay_for(args, creds, profile, env).profile,
        ) == Some(profile.name),
        names_profile(args) ==> observed(
            ambient_profile,
            overlay_for(args, creds, profile, env).profile,
        ) == ambient_profile,
{
}

/// Resolved credentials reach the delegate whatever the profile and the
/// ambient environment hold.
pub proof fn lemma_resolved_credentials_first(
    args: Seq<Seq<char>>,
    creds: CredentialView,
    profile: ProfileView,
    env: AmbientEnvView,
)
    ensures
        overlay_for(args, Some(creds), profile, env).access_key_id == Some(creds.access_key_id),
        overlay_for(args, Some(creds), profile, env).secret_access_key == Some(
            creds.secret_access_key,
        ),
        overlay_for(args, Some(creds), profile, env).session_token == Some(creds.session_token),
{
}

/// A region that the ambient environment or the arguments already give is
/// never replaced by the profile's.
pub proof fn lemma_region_respected(
    args: Seq<Seq<char>>,
    creds: Option<CredentialView>,
    profile: ProfileView,
    env: AmbientEnvView,
)
    requires
        env.region is Some || env.default_region is Some || names_region(args),
    ensures
        overlay_for(args, creds, profile, env).default_region is None,
{
}

/// How the delegate ended.
#[derive(Debug, Clone, Copy, PartialEq, Eq, Structural)]
pub enum ChildStatus {
    /// It ended by itself, with this code.
    Exited(i32),
    /// A signal of this number ended it.
    Signaled(i32),
    /// Neither is known.
    Unknown,
}

/// The exit code for a delegate that ended as `status` says: its own code;
/// for a signal 128 plus the signal's number, which is 130 for an interrupt
/// and 143 for a termination.
pub open spec fn exit_code_of(status: ChildStatus) -> int {
    match status {
        ChildStatus::Exited(code) => code as int,
        ChildStatus::Signaled(signal) => if signal == SIGINT {
            130
        } else if signal == SIGTERM {
            143
        } else {
            128 + signal
        },
        ChildStatus::Unknown => 0,
    }
}

/// The exit code for a delegate that ended as `status` says.
pub fn exit_code(status: ChildStatus) -> (r: i32)
    requires
        status matches ChildStatus::Signaled(signal) ==> 128 + signal <= i32::MAX,
    ensures
        r == exit_code_of(status),
{
    match status {
        ChildStatus::Exited(code) => code,
        ChildStatus::Signaled(signal) => if signal == SIGINT {
            130
        } else if signal == SIGTERM {
            143
        } else {
            128 + signal
        },
        ChildStatus::Unknown => 0,
    }
}

/// A delegate that ends by itself with a code from 0 to 255 gives that code;
/// one ended by an interrupt gives 130, by a termination 143.
pub proof fn lemma_exit_codes(n: i32)
    requires
        0 <= n <= 255,
    ensures
        exit_code_of(ChildStatus::Exited(n)) == n,
        exit_code_of(ChildStatus::Signaled(SIGINT)) == 130,
        exit_code_of(ChildStatus::Signaled(SIGTERM)) == 143,
{
}

/// Whether signals are still listened for while the delegate runs.
#[derive(Debug, Clone, Copy, PartialEq, Eq, Structural)]
pub enum WaitState {
    /// The delegate's exit is raced against the two signals.
    Racing,
    /// A signal was forwarded: only the delegate's exit is waited for.
    AwaitingExit,
    Finished,
}

#[derive(Debug, Clone, Copy, PartialEq, Eq, Structural)]
pub enum WaitEvent {
    ChildExited(ChildStatus),
    Interrupt,
    Terminate,
}

#[derive(Debug, Clone, Copy, PartialEq, Eq, Structural)]
pub enum WaitAction {
    /// End with this exit code.
    Finish(i32),
    /// Send the signal of this number to the delegate, then wait for it to
    /// end.
    Forward(i32),
    /// Go on waiting.
    Wait,
}

/// The state and the action that follow an event.
pub open spec fn wait_step(state: WaitState, event: WaitEvent) -> (WaitState, WaitAction) {
    match state {
        WaitState::Finished => (WaitState::Finished, WaitAction::Wait),
        _ => match event {
            WaitEvent::ChildExited(status) => (
                WaitState::Finished,
                WaitAction::Finish(exit_code_of(status) as i32),
            ),
            WaitEvent::Interrupt => if state == WaitState::Racing {
                (WaitState::AwaitingExit, WaitAction::Forward(SIGINT))
            } else {
                (state, WaitAction::Wait)
            },
            WaitEvent::Terminate => if state == WaitState::Racing {
                (WaitState::AwaitingExit, WaitAction::Forward(SIGTERM))
            } else {
                (state, WaitAction::Wait)
            },
        },
    }
}

/// A signal never ends the run by itself: it is forwarded as it came, once,
/// and only the delegate's exit gives an exit code.
pub proof fn lemma_signals_are_forwarded(state: WaitState)
    ensures
        !(wait_step(state, WaitEvent::Interrupt).1 is Finish),
        !(wait_step(state, WaitEvent::Terminate).1 is Finish),
        wait_step(WaitState::Racing, WaitEvent::Interrupt) == (
            WaitState::AwaitingExit,
            WaitAction::Forward(SIGINT),
        ),
        wait_step(WaitState::Racing, WaitEvent::Terminate) == (
            WaitState::AwaitingExit,
            WaitAction::Forward(SIGTERM),
        ),
        state != WaitState::Racing ==> wait_step(state, WaitEvent::Interrupt).1 == WaitAction::Wait
            && wait_step(state, WaitEvent::Terminate).1 == WaitAction::Wait,
{
}

/// What to do on an event while the delegate runs. Its exit ends the run
/// with its exit code. The first signal is forwarded as it came, and the
/// delegate's own exit is then waited for: no exit code is made up when a
/// signal arrives.
pub fn on_wait_event(state: WaitState, event: WaitEvent) -> (r: (WaitState, WaitAction))
    requires
        event matches WaitEvent::ChildExited(ChildStatus::Signaled(signal)) ==> 128 + signal
            <= i32::MAX,
    ensures
        r == wait_step(state, event),
{
    match state {
        WaitState::Finished => (WaitState::Finished, WaitAction::Wait),
        _ => match event {
            WaitEvent::ChildExited(status) => (
                WaitState::Finished,
                WaitAction::Finish(exit_code(status)),
            ),
            WaitEvent::Interrupt => if state == WaitState::Racing {
                (WaitState::AwaitingExit, WaitAction::Forward(SIGINT))
            } else {
                (state, WaitAction::Wait)
            },
            WaitEvent::Terminate => if state == WaitState::Racing {
                (WaitState::AwaitingExit, WaitAction::Forward(SIGTERM))
            } else {
                (state, WaitAction::Wait)
            },
        },
    }
}

/// Name of the variable that holds the access key id.
pub const ACCESS_KEY_ID_VAR: &'static str = "AWS_ACCESS_KEY_ID";

/// Name of the variable that holds the secret key.
pub const SECRET_ACCESS_KEY_VAR: &'static str = "AWS_SECRET_ACCESS_KEY";

/// Name of the variable that holds the session token.
pub const SESSION_TOKEN_VAR: &'static str = "AWS_SESSION_TOKEN";

/// Name of the region variable that is read first.
pub const REGION_VAR: &'static str = "AWS_REGION";

/// Name of the region variable that is read second, and the one written.
pub const DEFAULT_REGION_VAR: &'static str = "AWS_DEFAULT_REGION";

/// Name of the variable that selects the active profile.
pub const PROFILE_VAR: &'static str = "AWS_PROFILE";

/// The characters of each name and value.
pub open spec fn pairs_view(v: Seq<(String, String)>) -> Seq<(Seq<char>, Seq<char>)> {
    v.map_values(|e: (String, String)| (e.0@, e.1@))
}

/// The assignment of `value` to `name`, where there is a value.
pub open spec fn pair_if(name: Seq<char>, value: Option<Seq<char>>) -> Seq<(Seq<char>, Seq<char>)> {
    match value {
        Some(v) => seq![(name, v)],
        None => Seq::empty(),
    }
}

/// The variables that an overlay sets, each with its value.
pub open spec fn assignments_of(o: OverlayView) -> Seq<(Seq<char>, Seq<char>)> {
    pair_if("AWS_ACCESS_KEY_ID"@, o.access_key_id) + pair_if(
        "AWS_SECRET_ACCESS_KEY"@,
        o.secret_access_key,
    ) + pair_if("AWS_SESSION_TOKEN"@, o.session_token) + pair_if(
        "AWS_DEFAULT_REGION"@,
        o.default_region,
    ) + pair_if("AWS_PROFILE"@, o.profile)
}

/// The three variables that carry credentials to a call, bypassing the
/// ambient environment.
pub open spec fn credential_pairs(c: CredentialView) -> Seq<(Seq<char>, Seq<char>)> {
    seq![
        ("AWS_ACCESS_KEY_ID"@, c.access_key_id),
        ("AWS_SECRET_ACCESS_KEY"@, c.secret_access_key),
        ("AWS_SESSION_TOKEN"@, c.session_token),
    ]
}

/// Adds the assignment of `value` to `name`, where there is a value.
fn push_if(v: &mut Vec<(String, String)>, name: &str, value: &Option<String>)
    ensures
        pairs_view(final(v)@) == pairs_view(old(v)@) + pair_if(name@, opt_view(*value)),
{
    match value {
        Some(s) => {
            v.push((String::from_str(name), s.clone()));
        },
        None => {},
    }
    assert(pairs_view(v@) =~= pairs_view(old(v)@) + pair_if(name@, opt_view(*value)));
}

impl Overlay {
    /// The variables that the overlay sets, each with its value.
    pub fn assignments(&self) -> (r: Vec<(String, String)>)
        ensures
            pairs_view(r@) == assignments_of(self@),
    {
        let mut r: Vec<(String, String)> = Vec::new();
        assert(pairs_view(r@) =~= Seq::empty());
        push_if(&mut r, "AWS_ACCESS_KEY_ID", &self.access_key_id);
        push_if(&mut r, "AWS_SECRET_ACCESS_KEY", &self.secret_access_key);
        push_if(&mut r, "AWS_SESSION_TOKEN", &self.session_token);
        push_if(&mut r, "AWS_DEFAULT_REGION", &self.default_region);
        push_if(&mut r, "AWS_PROFILE", &self.profile);
        assert(pairs_view(r@) =~= assignments_of(self@));
        r
    }
}

/// The variables that carry `c` to a role assumption.
pub fn credential_assignments(c: &Credential) -> (r: Vec<(String, String)>)
    ensures
        pairs_view(r@) == credential_pairs(c@),
{
    let mut r: Vec<(String, String)> = Vec::new();
    r.push((String::from_str("AWS_ACCESS_KEY_ID"), c.access_key_id.clone()));
    r.push((String::from_str("AWS_SECRET_ACCESS_KEY"), c.secret_access_key.clone()));
    r.push((String::from_str("AWS_SESSION_TOKEN"), c.session_token.clone()));
    assert(pairs_view(r@) =~= credential_pairs(c@));
    r
}

} // verus!
