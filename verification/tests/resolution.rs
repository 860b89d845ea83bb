use awx::mfa::{
    accept_code, first_step, mismatch_message, needs_account_check, next_step, verify_account, AttemptOutcome, MfaError,
    MfaStep,
};
use awx::profile::{load_profiles, ConfigError, Profile, ProfileStore, Source, SourceText};
use awx::resolve::{
    after_login, exit_code_of_failure, find_profile, liveness_of, login_required_message, next_action,
    plan_resolution, select_profile_name, sso_action, sso_login_args, startup, tool_present, AuthContext, Failure, Liveness, Outcome, Plan, ProfileError, ResolveAction,
    ResolveEvent, Selection, SsoAction, Startup, EXIT_OK,
};
use awx::sts::{
    account_id, assume_role_with_env_args, assume_role_with_profile_args, check_identity_args,
    credentials_of_reply, fresh_session_name, get_session_token_args, identity_check, session_name,
    Credential, ProcessReply, ServiceError,
};

fn store(config: &str, credentials: &str) -> ProfileStore {
    load_profiles(
        &SourceText::Present(config.to_string()),
        &SourceText::Present(credentials.to_string()),
    )
    .ok()
    .unwrap()
}

fn credential(key: &str) -> Credential {
    Credential {
        access_key_id: key.to_string(),
        secret_access_key: "SECRET".to_string(),
        session_token: "TOKEN".to_string(),
        expiration: "2025-10-17T00:00:00Z".to_string(),
    }
}

fn exited(success: bool, stdout: &str, stderr: &str) -> ProcessReply {
    ProcessReply::Exited { success, stdout: stdout.to_string(), stderr: stderr.to_string() }
}

#[test]
fn role_with_static_source_delegates_to_the_source_profile() {
    let s = store(
        "[profile role-prod]\nrole_arn=arn:aws:iam::000000000000:role/ProdRole\nsource_profile=base\n",
        "[base]\naws_access_key_id=BASEKEY\naws_secret_access_key=BASESECRET\n",
    );
    let p = s.get("role-prod").unwrap();
    let plan = plan_resolution(p, &s).ok().unwrap();
    match &plan {
        Plan::AssumeRoleWithProfile { role_arn, source } => {
            assert_eq!(role_arn, "arn:aws:iam::000000000000:role/ProdRole");
            assert_eq!(source, "base");
        }
        _ => panic!("wrong plan"),
    }
    match next_action(&plan, ResolveEvent::Start) {
        Some(ResolveAction::AssumeRole { role_arn, auth: AuthContext::NamedProfile(name) }) => {
            assert_eq!(role_arn, "arn:aws:iam::000000000000:role/ProdRole");
            assert_eq!(name, "base");
        }
        _ => panic!("wrong action"),
    }
    match next_action(&plan, ResolveEvent::RoleCredentials(credential("AKIAFAKE2"))) {
        Some(ResolveAction::Finish(Outcome::Credentials(c))) => {
            assert_eq!(c.access_key_id, "AKIAFAKE2");
            assert_eq!(c.secret_access_key, "SECRET");
            assert_eq!(c.session_token, "TOKEN");
        }
        _ => panic!("wrong action"),
    }
    assert!(next_action(&plan, ResolveEvent::SessionToken(credential("X"))).is_none());
}

#[test]
fn role_with_mfa_source_signs_in_first() {
    let s = store(
        "[profile r]\nrole_arn=arn:role\nsource_profile=base\n[profile base]\nmfa_serial=arn:aws:iam::1:mfa/u\n",
        "[base]\naws_access_key_id=K\naws_secret_access_key=S\n",
    );
    let plan = plan_resolution(s.get("r").unwrap(), &s).ok().unwrap();
    match next_action(&plan, ResolveEvent::Start) {
        Some(ResolveAction::AcquireSessionToken { profile, mfa_serial }) => {
            assert_eq!(profile, "base");
            assert_eq!(mfa_serial, "arn:aws:iam::1:mfa/u");
        }
        _ => panic!("wrong action"),
    }
    match next_action(&plan, ResolveEvent::SessionToken(credential("TEMP"))) {
        Some(ResolveAction::AssumeRole { role_arn, auth: AuthContext::Overlay(c) }) => {
            assert_eq!(role_arn, "arn:role");
            assert_eq!(c.access_key_id, "TEMP");
        }
        _ => panic!("wrong action"),
    }
    match next_action(&plan, ResolveEvent::RoleCredentials(credential("FINAL"))) {
        Some(ResolveAction::Finish(Outcome::Credentials(c))) => assert_eq!(c.access_key_id, "FINAL"),
        _ => panic!("wrong action"),
    }
}

#[test]
fn role_with_sso_source_delegates() {
    let s = store("[profile r]\nrole_arn=arn:role\nsource_profile=sso\n[profile sso]\nsso_region=us-east-1\n", "");
    match plan_resolution(s.get("r").unwrap(), &s).ok().unwrap() {
        Plan::AssumeRoleWithProfile { source, .. } => assert_eq!(source, "sso"),
        _ => panic!("wrong plan"),
    }
}

#[test]
fn plan_errors() {
    let s = store(
        "[profile nosrc]\nrole_arn=a\n[profile gone]\nrole_arn=a\nsource_profile=nowhere\n[profile chain]\nrole_arn=a\nsource_profile=nosrc\n[profile bare]\nrole_arn=a\nsource_profile=empty\n[profile empty]\nregion=x\n",
        "",
    );
    assert_eq!(plan_resolution(s.get("nosrc").unwrap(), &s).err(), Some(ProfileError::SourceProfileNotFound));
    assert_eq!(plan_resolution(s.get("gone").unwrap(), &s).err(), Some(ProfileError::SourceProfileNotFound));
    assert_eq!(plan_resolution(s.get("chain").unwrap(), &s).err(), Some(ProfileError::UnsupportedChain));
    assert_eq!(plan_resolution(s.get("bare").unwrap(), &s).err(), Some(ProfileError::UnsupportedSourceAuth));
    assert_eq!(find_profile(&s, "absent").err(), Some(ProfileError::ProfileNotFound));
    assert_eq!(find_profile(&s, "empty").ok().unwrap().region.as_deref(), Some("x"));
}

#[test]
fn static_profile_with_mfa_asks_for_a_session_token() {
    let s = store("[profile m]\nmfa_serial=arn:aws:iam::1:mfa/u\n", "[m]\naws_access_key_id=K\naws_secret_access_key=S\n[plain]\naws_access_key_id=K\naws_secret_access_key=S\n");
    let plan = plan_resolution(s.get("m").unwrap(), &s).ok().unwrap();
    match next_action(&plan, ResolveEvent::Start) {
        Some(ResolveAction::AcquireSessionToken { profile, mfa_serial }) => {
            assert_eq!(profile, "m");
            assert_eq!(mfa_serial, "arn:aws:iam::1:mfa/u");
        }
        _ => panic!("wrong action"),
    }
    match next_action(&plan, ResolveEvent::SessionToken(credential("AKIAFAKE"))) {
        Some(ResolveAction::Finish(Outcome::Credentials(c))) => assert_eq!(c.access_key_id, "AKIAFAKE"),
        _ => panic!("wrong action"),
    }
    let plain = plan_resolution(s.get("plain").unwrap(), &s).ok().unwrap();
    assert!(matches!(plain, Plan::NoInjectionNeeded));
    assert!(matches!(
        next_action(&plain, ResolveEvent::Start),
        Some(ResolveAction::Finish(Outcome::NoInjectionNeeded))
    ));
}

#[test]
fn test_verify_mfa_profile_account_mismatch() {
    let reply = exited(
        true,
        "{\"Account\":\"000000000000\",\"Arn\":\"arn:aws:iam::000000000000:user/test-user\",\"UserId\":\"AID...\"}\n",
        "",
    );
    let res = account_id(&reply).ok().unwrap();
    assert_eq!(res, "000000000000");
    let serial = "arn:aws:iam::111111111111:mfa/test-user";
    assert!(needs_account_check(serial));
    match verify_account(serial, Some(res.as_str())) {
        Err(MfaError::AccountMismatch { mfa_account, profile_account }) => {
            assert_eq!(mfa_account, "111111111111");
            assert_eq!(profile_account, "000000000000");
            assert_ne!(mfa_account, profile_account);
        }
        _ => panic!("no mismatch"),
    }
    assert!(matches!(
        first_step(serial, Some(res.as_str())),
        MfaStep::Fail(MfaError::AccountMismatch { .. })
    ));
    assert!(matches!(first_step(serial, None), MfaStep::Prompt { attempt: 1 }));
    assert!(matches!(
        first_step("arn:aws:iam::000000000000:mfa/test-user", Some(res.as_str())),
        MfaStep::Prompt { attempt: 1 }
    ));
    assert!(verify_account("arn:aws:iam::000000000000:mfa/test-user", Some(res.as_str())).is_ok());
    assert!(verify_account(serial, None).is_ok());
    assert!(verify_account("no-account", Some("000000000000")).is_ok());
    assert!(!needs_account_check("no-account"));
}

#[test]
fn account_id_errors() {
    assert!(matches!(account_id(&exited(true, "not json", "")), Err(ServiceError::MalformedResponse)));
    assert!(matches!(account_id(&exited(true, "{\"Arn\":\"x\"}", "")), Err(ServiceError::AccountMissing)));
    assert!(matches!(account_id(&exited(true, "{\"Account\":12}", "")), Err(ServiceError::AccountMissing)));
    assert!(matches!(account_id(&exited(true, "[\"Account\"]", "")), Err(ServiceError::AccountMissing)));
    match account_id(&exited(false, "{\"Account\":\"1\"}", "denied")) {
        Err(ServiceError::NonZeroExit { stderr }) => assert_eq!(stderr, "denied"),
        _ => panic!("wrong error"),
    }
    assert!(matches!(account_id(&ProcessReply::TimedOut), Err(ServiceError::Timeout)));
    assert!(matches!(account_id(&ProcessReply::SpawnFailed), Err(ServiceError::SpawnFailed)));
}

#[test]
fn identity_check_results() {
    assert!(matches!(identity_check(&exited(true, "", "")), Ok(true)));
    assert!(matches!(identity_check(&exited(false, "", "")), Ok(false)));
    assert!(matches!(identity_check(&ProcessReply::TimedOut), Err(ServiceError::Timeout)));
    assert!(matches!(identity_check(&ProcessReply::SpawnFailed), Err(ServiceError::SpawnFailed)));
    assert_eq!(liveness_of(&Ok(true)), Liveness::LoggedIn);
    assert_eq!(liveness_of(&Ok(false)), Liveness::NotLoggedIn);
    assert_eq!(liveness_of(&Err(ServiceError::Timeout)), Liveness::Unknown);
}

#[test]
fn credentials_of_reply_cases() {
    let ok = exited(true, "{}", "");
    assert_eq!(credentials_of_reply(&ok, Some(credential("A"))).ok().unwrap().access_key_id, "A");
    assert!(matches!(credentials_of_reply(&ok, None), Err(ServiceError::MalformedResponse)));
    assert!(matches!(
        credentials_of_reply(&exited(false, "", "bad"), Some(credential("A"))),
        Err(ServiceError::NonZeroExit { .. })
    ));
    assert!(matches!(credentials_of_reply(&ProcessReply::TimedOut, None), Err(ServiceError::Timeout)));
}

#[test]
fn sso_actions() {
    assert_eq!(sso_action(Liveness::LoggedIn, true), SsoAction::Proceed);
    assert_eq!(sso_action(Liveness::LoggedIn, false), SsoAction::Proceed);
    assert_eq!(sso_action(Liveness::NotLoggedIn, true), SsoAction::ExitLoginRequired);
    assert_eq!(sso_action(Liveness::NotLoggedIn, false), SsoAction::RunLogin);
    assert_eq!(sso_action(Liveness::Unknown, true), SsoAction::ExitLoginRequired);
    assert_eq!(sso_action(Liveness::Unknown, false), SsoAction::Proceed);
}

#[test]
fn mfa_codes() {
    assert_eq!(accept_code("123456").as_deref(), Some("123456"));
    assert_eq!(accept_code("  000000\n").as_deref(), Some("000000"));
    assert_eq!(accept_code("12345"), None);
    assert_eq!(accept_code("1234567"), None);
    assert_eq!(accept_code("12a456"), None);
    assert_eq!(accept_code("12 456"), None);
    assert_eq!(accept_code(""), None);
    assert_eq!(accept_code("١٢٣٤٥٦"), None);
}

#[test]
fn mfa_attempts() {
    assert!(matches!(next_step(1, AttemptOutcome::Granted), MfaStep::Deliver));
    assert!(matches!(next_step(3, AttemptOutcome::Granted), MfaStep::Deliver));
    assert!(matches!(next_step(1, AttemptOutcome::Refused), MfaStep::Prompt { attempt: 2 }));
    assert!(matches!(next_step(2, AttemptOutcome::Refused), MfaStep::Prompt { attempt: 3 }));
    assert!(matches!(next_step(3, AttemptOutcome::Refused), MfaStep::Fail(MfaError::RetriesExhausted)));
    assert!(matches!(next_step(1, AttemptOutcome::Malformed), MfaStep::Prompt { attempt: 2 }));
    assert!(matches!(next_step(3, AttemptOutcome::Malformed), MfaStep::Fail(MfaError::MalformedCode)));
}

#[test]
fn exit_codes_of_failures() {
    assert_eq!(exit_code_of_failure(&Failure::SsoLoginRequired), 2);
    assert_eq!(exit_code_of_failure(&Failure::Mfa(MfaError::RetriesExhausted)), 3);
    assert_eq!(exit_code_of_failure(&Failure::Mfa(MfaError::MalformedCode)), 1);
    assert_eq!(exit_code_of_failure(&Failure::NoProfiles), 1);
    assert_eq!(exit_code_of_failure(&Failure::Profile(ProfileError::ProfileNotFound)), 1);
    assert_eq!(exit_code_of_failure(&Failure::DelegateSpawn), 1);
    assert_eq!(exit_code_of_failure(&Failure::Service(ServiceError::Timeout)), 1);
    assert_eq!(exit_code_of_failure(&Failure::LoginFailed), 1);
    assert_eq!(exit_code_of_failure(&Failure::Prompt), 1);
    assert_eq!(exit_code_of_failure(&Failure::Config(ConfigError::HomeDirectoryUnknown)), 1);
    assert_eq!(exit_code_of_failure(&Failure::Config(ConfigError::Unreadable(Source::Config))), 1);
    assert_eq!(EXIT_OK, 0);
}

#[test]
fn selection_precedence() {
    let named = |s: Selection| match s {
        Selection::Named(n) => Some(n),
        Selection::Interactive => None,
    };
    assert_eq!(named(select_profile_name(Some("a".into()), true, Some("b".into()))).as_deref(), Some("a"));
    assert_eq!(named(select_profile_name(Some("a".into()), false, None)).as_deref(), Some("a"));
    assert_eq!(named(select_profile_name(None, true, Some("b".into()))).as_deref(), Some("b"));
    assert_eq!(named(select_profile_name(None, true, None)).as_deref(), Some("default"));
    assert_eq!(named(select_profile_name(None, false, Some("b".into()))), None);
}

#[test]
fn startup_order() {
    assert!(matches!(startup(0, true, Some("all".into())), Startup::NoProfiles));
    assert!(matches!(startup(2, true, Some("all".into())), Startup::PrintConfig));
    match startup(2, false, Some("all".into())) {
        Startup::ClearCache(t) => assert_eq!(t, "all"),
        _ => panic!("wrong startup"),
    }
    assert!(matches!(startup(2, false, None), Startup::Resolve));
}

#[test]
fn service_arguments() {
    assert_eq!(
        check_identity_args("dev"),
        vec!["sts", "get-caller-identity", "--profile", "dev", "--output", "json"]
    );
    assert_eq!(
        get_session_token_args("dev", "arn:mfa", "123456"),
        vec![
            "sts", "get-session-token", "--serial-number", "arn:mfa", "--token-code", "123456",
            "--profile", "dev", "--duration-seconds", "3600", "--output", "json"
        ]
    );
    assert_eq!(
        assume_role_with_profile_args("arn:aws:iam::000000000000:role/Role", "awx-test", "default"),
        vec![
            "sts", "assume-role", "--role-arn", "arn:aws:iam::000000000000:role/Role",
            "--role-session-name", "awx-test", "--profile", "default", "--duration-seconds", "3600",
            "--output", "json"
        ]
    );
    assert_eq!(
        assume_role_with_env_args("arn:role", "awx-1"),
        vec![
            "sts", "assume-role", "--role-arn", "arn:role", "--role-session-name", "awx-1",
            "--duration-seconds", "3600", "--output", "json"
        ]
    );
}

#[test]
fn session_names() {
    assert_eq!(session_name(0), "awx-0");
    assert_eq!(session_name(7), "awx-7");
    assert_eq!(session_name(1760659200), "awx-1760659200");
    assert_eq!(session_name(-15), "awx--15");
    assert_eq!(session_name(i64::MAX), format!("awx-{}", i64::MAX));
    assert_eq!(session_name(i64::MIN), format!("awx-{}", i64::MIN));
    let fresh = fresh_session_name();
    assert!(fresh.starts_with("awx-"));
    assert!(fresh.len() > "awx-".len());
    assert!(fresh["awx-".len()..].parse::<i64>().ok().unwrap() > 1_000_000_000);
}

#[test]
fn messages() {
    assert_eq!(
        mismatch_message("111111111111", "000000000000", "example-profile"),
        "MFA serial account (111111111111) does not match profile account (000000000000). Update 'mfa_serial' in profile 'example-profile', or use credentials for the correct account."
    );
    assert_eq!(
        login_required_message("sso-prod"),
        "SSO login required for profile \"sso-prod\". Run: aws sso login --profile sso-prod"
    );
    assert_eq!(sso_login_args("sso-prod"), vec!["sso", "login", "--profile", "sso-prod"]);
    assert!(after_login(true).is_ok());
    assert!(matches!(after_login(false), Err(Failure::LoginFailed)));
    assert!(tool_present(&exited(true, "aws-cli/2.x", "")).is_ok());
    assert!(matches!(tool_present(&exited(false, "", "")), Err(Failure::DelegateSpawn)));
    assert!(matches!(tool_present(&ProcessReply::SpawnFailed), Err(Failure::DelegateSpawn)));
}

#[test]
fn default_profile_is_blank() {
    let p = Profile::default();
    assert_eq!(p.name, "");
    assert_eq!(p.region, None);
}
