use awx::delegate::{
    args_name_profile, args_name_region, build_overlay, credential_assignments, exit_code, on_wait_event,
    AmbientEnv, ChildStatus, WaitAction, WaitEvent, WaitState, ACCESS_KEY_ID_VAR, PROFILE_VAR, SIGINT,
    SIGTERM,
};
use awx::display::{badges, label, selected_name, selection_items};
use awx::profile::{load_profiles, Profile, SourceText};
use awx::sts::{assume_role_with_profile_args, credentials_of_reply, Credential, ProcessReply};

fn args(list: &[&str]) -> Vec<String> {
    list.iter().map(|s| s.to_string()).collect()
}

fn no_env() -> AmbientEnv {
    AmbientEnv { access_key_id: None, region: None, default_region: None }
}

fn static_profile() -> Profile {
    Profile {
        name: "default".to_string(),
        aws_access_key_id: Some("PROFILEKEY".to_string()),
        aws_secret_access_key: Some("PROFILESECRET".to_string()),
        ..Default::default()
    }
}

#[test]
fn test_static_profile_credentials_are_injected() {
    let overlay = build_overlay(&args(&["s3", "ls"]), None, &static_profile(), &no_env());
    assert_eq!(overlay.access_key_id.as_deref(), Some("PROFILEKEY"));
    assert_eq!(overlay.secret_access_key.as_deref(), Some("PROFILESECRET"));
    assert_eq!(overlay.session_token, None);
}

#[test]
fn test_static_profile_does_not_override_env() {
    let env = AmbientEnv { access_key_id: Some("EXPLICIT".to_string()), region: None, default_region: None };
    let overlay = build_overlay(&args(&["s3", "ls"]), None, &static_profile(), &env);
    assert_eq!(overlay.access_key_id, None);
    assert_eq!(overlay.secret_access_key, None);
    assert_eq!(overlay.session_token, None);
}

#[test]
fn empty_ambient_key_counts_as_unset() {
    let env = AmbientEnv { access_key_id: Some(String::new()), region: None, default_region: None };
    let overlay = build_overlay(&args(&["s3", "ls"]), None, &static_profile(), &env);
    assert_eq!(overlay.access_key_id.as_deref(), Some("PROFILEKEY"));
}

#[test]
fn test_child_receives_aws_profile_env() {
    let profile = Profile { name: "example-profile".to_string(), ..Default::default() };
    let overlay = build_overlay(&args(&["s3", "ls"]), None, &profile, &no_env());
    assert_eq!(overlay.profile.as_deref(), Some("example-profile"));
    assert_eq!(overlay.access_key_id, None);
    assert_eq!(overlay.default_region, None);
}

#[test]
fn profile_flag_in_arguments_is_respected() {
    let profile = Profile { name: "example-profile".to_string(), ..Default::default() };
    let overlay = build_overlay(&args(&["s3", "ls", "--profile", "other"]), None, &profile, &no_env());
    assert_eq!(overlay.profile, None);
    let overlay = build_overlay(&args(&["--profile=other", "s3"]), None, &profile, &no_env());
    assert_eq!(overlay.profile, None);
    let overlay = build_overlay(&args(&["--profiles", "s3"]), None, &profile, &no_env());
    assert_eq!(overlay.profile.as_deref(), Some("example-profile"));
    assert!(args_name_profile(&args(&["--profile"])));
    assert!(!args_name_profile(&args(&["-profile", "profile"])));
}

#[test]
fn resolved_credentials_come_first() {
    let creds = Credential {
        access_key_id: "TEMPKEY".to_string(),
        secret_access_key: "TEMPSECRET".to_string(),
        session_token: "TEMPTOKEN".to_string(),
        expiration: "later".to_string(),
    };
    let env = AmbientEnv { access_key_id: Some("EXPLICIT".to_string()), region: None, default_region: None };
    let overlay = build_overlay(&args(&["s3", "ls"]), Some(&creds), &static_profile(), &env);
    assert_eq!(overlay.access_key_id.as_deref(), Some("TEMPKEY"));
    assert_eq!(overlay.secret_access_key.as_deref(), Some("TEMPSECRET"));
    assert_eq!(overlay.session_token.as_deref(), Some("TEMPTOKEN"));
}

#[test]
fn region_precedence() {
    let profile = Profile {
        name: "default".to_string(),
        region: Some("us-west-2".to_string()),
        ..Default::default()
    };
    let overlay = build_overlay(&args(&["s3", "ls"]), None, &profile, &no_env());
    assert_eq!(overlay.default_region.as_deref(), Some("us-west-2"));
    let env = AmbientEnv { access_key_id: None, region: Some("eu-west-1".to_string()), default_region: None };
    assert_eq!(build_overlay(&args(&["s3"]), None, &profile, &env).default_region, None);
    let env = AmbientEnv { access_key_id: None, region: None, default_region: Some(String::new()) };
    assert_eq!(build_overlay(&args(&["s3"]), None, &profile, &env).default_region, None);
    let with_flag = args(&["s3", "--region=eu-west-1"]);
    assert_eq!(build_overlay(&with_flag, None, &profile, &no_env()).default_region, None);
    assert!(args_name_region(&args(&["--region", "x"])));
    assert!(!args_name_region(&args(&["region", "-region"])));
}

#[test]
fn test_run_with_fake_aws_binary() {
    let profile = Profile {
        name: "default".to_string(),
        region: Some("us-west-2".to_string()),
        ..Default::default()
    };
    let overlay = build_overlay(&args(&["s3", "ls"]), None, &profile, &no_env());
    assert_eq!(overlay.default_region.as_deref(), Some("us-west-2"));
    assert_eq!(overlay.profile.as_deref(), Some("default"));
    let (state, action) = on_wait_event(WaitState::Racing, WaitEvent::ChildExited(ChildStatus::Exited(0)));
    assert_eq!(state, WaitState::Finished);
    assert_eq!(action, WaitAction::Finish(0));

    let args = assume_role_with_profile_args("arn:aws:iam::000000000000:role/Role", "awx-test", "default");
    assert_eq!(args[1], "assume-role");
    let stdout = "{\"Credentials\":{\"AccessKeyId\":\"AKIAFAKE2\",\"SecretAccessKey\":\"SECRET2\",\"SessionToken\":\"TOKEN2\",\"Expiration\":\"2025-10-17T00:00:00Z\"}}\n";
    let reply = ProcessReply::Exited { success: true, stdout: stdout.to_string(), stderr: String::new() };
    let document: serde_json::Value = serde_json::from_str(stdout).ok().unwrap();
    let field = |name: &str| document["Credentials"][name].as_str().unwrap().to_string();
    let parsed = Credential {
        access_key_id: field("AccessKeyId"),
        secret_access_key: field("SecretAccessKey"),
        session_token: field("SessionToken"),
        expiration: field("Expiration"),
    };
    let creds = credentials_of_reply(&reply, Some(parsed)).ok().unwrap();
    assert_eq!(creds.access_key_id, "AKIAFAKE2");
}

#[test]
fn overlay_assignments() {
    let profile = Profile {
        name: "dev".to_string(),
        region: Some("us-west-2".to_string()),
        aws_access_key_id: Some("K".to_string()),
        aws_secret_access_key: Some("S".to_string()),
        ..Default::default()
    };
    let overlay = build_overlay(&args(&["s3", "ls"]), None, &profile, &no_env());
    let pair = |a: &str, b: &str| (a.to_string(), b.to_string());
    assert_eq!(
        overlay.assignments(),
        vec![
            pair("AWS_ACCESS_KEY_ID", "K"),
            pair("AWS_SECRET_ACCESS_KEY", "S"),
            pair("AWS_DEFAULT_REGION", "us-west-2"),
            pair("AWS_PROFILE", "dev"),
        ]
    );
    let creds = Credential {
        access_key_id: "A".to_string(),
        secret_access_key: "B".to_string(),
        session_token: "C".to_string(),
        expiration: "later".to_string(),
    };
    assert_eq!(
        credential_assignments(&creds),
        vec![pair("AWS_ACCESS_KEY_ID", "A"), pair("AWS_SECRET_ACCESS_KEY", "B"), pair("AWS_SESSION_TOKEN", "C")]
    );
    assert_eq!(ACCESS_KEY_ID_VAR, "AWS_ACCESS_KEY_ID");
    assert_eq!(PROFILE_VAR, "AWS_PROFILE");
}

#[test]
fn exit_codes_of_child_statuses() {
    assert_eq!(exit_code(ChildStatus::Exited(0)), 0);
    assert_eq!(exit_code(ChildStatus::Exited(9)), 9);
    assert_eq!(exit_code(ChildStatus::Exited(255)), 255);
    assert_eq!(exit_code(ChildStatus::Signaled(SIGINT)), 130);
    assert_eq!(exit_code(ChildStatus::Signaled(SIGTERM)), 143);
    assert_eq!(exit_code(ChildStatus::Signaled(9)), 137);
    assert_eq!(exit_code(ChildStatus::Signaled(1)), 129);
    assert_eq!(exit_code(ChildStatus::Unknown), 0);
    assert_eq!(SIGINT, 2);
    assert_eq!(SIGTERM, 15);
}

#[test]
fn signals_are_forwarded_once() {
    assert_eq!(
        on_wait_event(WaitState::Racing, WaitEvent::Interrupt),
        (WaitState::AwaitingExit, WaitAction::Forward(2))
    );
    assert_eq!(
        on_wait_event(WaitState::Racing, WaitEvent::Terminate),
        (WaitState::AwaitingExit, WaitAction::Forward(15))
    );
    assert_eq!(
        on_wait_event(WaitState::AwaitingExit, WaitEvent::Interrupt),
        (WaitState::AwaitingExit, WaitAction::Wait)
    );
    assert_eq!(
        on_wait_event(WaitState::AwaitingExit, WaitEvent::ChildExited(ChildStatus::Signaled(2))),
        (WaitState::Finished, WaitAction::Finish(130))
    );
    assert_eq!(
        on_wait_event(WaitState::AwaitingExit, WaitEvent::ChildExited(ChildStatus::Signaled(15))),
        (WaitState::Finished, WaitAction::Finish(143))
    );
    assert_eq!(
        on_wait_event(WaitState::Finished, WaitEvent::Terminate),
        (WaitState::Finished, WaitAction::Wait)
    );
}

#[test]
fn badges_and_labels() {
    let store = load_profiles(
        &SourceText::Present(
            "[default]\nregion=x\n[profile all]\nsso_region=r\nrole_arn=a\nmfa_serial=m\n".to_string(),
        ),
        &SourceText::Present(
            "[default]\naws_access_key_id=K\naws_secret_access_key=S\n[all]\naws_access_key_id=K\naws_secret_access_key=S\n".to_string(),
        ),
    )
    .ok()
    .unwrap();
    assert_eq!(badges(store.get("default").unwrap()), "[default][STATIC]");
    assert_eq!(badges(store.get("all").unwrap()), "[SSO][ROLE][MFA][STATIC]");
    assert_eq!(label(store.get("all").unwrap()), "all [SSO][ROLE][MFA][STATIC]");
    assert_eq!(badges(&Profile { name: "x".to_string(), ..Default::default() }), "");
    assert_eq!(selection_items(&store), vec!["default [default][STATIC]", "all [SSO][ROLE][MFA][STATIC]"]);
    assert_eq!(selected_name(&store, 1).as_deref(), Some("all"));
    assert_eq!(selected_name(&store, 2), None);
}
