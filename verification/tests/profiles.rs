use awx::arn::extract_account_from_arn;
use awx::ini::parse_ini;
use awx::profile::{
    load_profiles, ConfigError, KeyKind, Profile, ProfileKinds, Source, SourceText, CONFIG_FILE,
    CREDENTIALS_FILE, SOURCE_DIR,
};

const CONFIG: &str = r#"
[profile sso-prod]
sso_start_url = https://d-123.awsapps.com/start
sso_region = us-west-2
region = us-west-2

[profile role-prod]
role_arn = arn:aws:iam::000000000000:role/ProdRole
source_profile = base
region = us-west-2

[default]
region = us-east-1

[profile mfa-prod]
mfa_serial = arn:aws:iam::000000000000:mfa/test-user
region = us-west-2
"#;

const CREDENTIALS: &str = r#"
[default]
aws_access_key_id = DEFKEY
aws_secret_access_key = DEFSECRET

[base]
aws_access_key_id = BASEKEY
aws_secret_access_key = BASESECRET

[mfa-prod]
aws_access_key_id = MFAKEY
aws_secret_access_key = MFASECRET
"#;

fn present(text: &str) -> SourceText {
    SourceText::Present(text.to_string())
}

#[test]
fn test_load_profiles_from_dir_parses_config_and_credentials() {
    let profiles = load_profiles(&present(CONFIG), &present(CREDENTIALS)).ok().unwrap();
    assert!(profiles.contains_key("sso-prod"));
    assert!(profiles.contains_key("role-prod"));
    assert!(profiles.contains_key("default"));
    assert!(profiles.contains_key("mfa-prod"));
    assert!(profiles.contains_key("base"));

    let sso = profiles.get("sso-prod").unwrap();
    assert!(sso.is_sso());
    assert_eq!(sso.region.as_deref(), Some("us-west-2"));

    let role = profiles.get("role-prod").unwrap();
    assert!(role.is_role());
    assert_eq!(role.source_profile.as_deref(), Some("base"));

    let def = profiles.get("default").unwrap();
    assert!(def.is_static());

    let mfa = profiles.get("mfa-prod").unwrap();
    assert!(mfa.requires_mfa());

    let base = profiles.get("base").unwrap();
    assert!(base.is_static());
}

#[test]
fn test_extract_account_from_arn() {
    let arn = "arn:aws:iam::000000000000:mfa/test-user";
    let acc = extract_account_from_arn(arn);
    assert_eq!(acc.as_deref(), Some("000000000000"));
}

#[test]
fn extract_account_needs_five_fields() {
    assert_eq!(extract_account_from_arn("arn:aws:iam:"), None);
    assert_eq!(extract_account_from_arn("arn:aws:iam::"), None);
    assert_eq!(extract_account_from_arn(""), None);
    assert_eq!(extract_account_from_arn("a:b:c:d"), None);
    assert_eq!(extract_account_from_arn("a:b:c:d:e").as_deref(), Some("e"));
    assert_eq!(extract_account_from_arn("a:b:c:d:e:f:g").as_deref(), Some("e"));
    assert_eq!(extract_account_from_arn("::::42").as_deref(), Some("42"));
}

#[test]
fn load_gives_one_entry_per_name() {
    let profiles = load_profiles(&present(CONFIG), &present(CREDENTIALS)).ok().unwrap();
    assert_eq!(profiles.len(), 5);
    let def = profiles.get("default").unwrap();
    assert_eq!(def.region.as_deref(), Some("us-east-1"));
    assert_eq!(def.aws_access_key_id.as_deref(), Some("DEFKEY"));
    assert_eq!(def.aws_secret_access_key.as_deref(), Some("DEFSECRET"));
    assert_eq!(def.aws_session_token, None);
    let mfa = profiles.get("mfa-prod").unwrap();
    assert_eq!(mfa.mfa_serial.as_deref(), Some("arn:aws:iam::000000000000:mfa/test-user"));
    assert_eq!(mfa.aws_access_key_id.as_deref(), Some("MFAKEY"));
    assert!(mfa.is_static() && mfa.requires_mfa());
    let base = profiles.get("base").unwrap();
    assert_eq!(base.region, None);
    assert!(!base.is_sso() && !base.is_role() && !base.requires_mfa());
    assert!(!profiles.contains_key("profile sso-prod"));
    assert!(profiles.get("missing").is_none());
}

#[test]
fn sso_profile_scenario() {
    let config = "[profile sso-prod]\nsso_start_url=https://d-123.awsapps.com/start\nsso_region=us-west-2\nregion=us-west-2\n";
    let profiles = load_profiles(&present(config), &SourceText::Absent).ok().unwrap();
    let p = profiles.get("sso-prod").unwrap();
    assert!(p.is_sso());
    assert_eq!(p.region.as_deref(), Some("us-west-2"));
    assert_eq!(p.name, "sso-prod");
    assert!(!p.is_static());
}

#[test]
fn source_names() {
    assert_eq!(SOURCE_DIR, ".aws");
    assert_eq!(CONFIG_FILE, "config");
    assert_eq!(CREDENTIALS_FILE, "credentials");
    assert_eq!(awx::sts::PROGRAM, "aws");
    assert_eq!(awx::sts::IDENTITY_TIMEOUT_SECS, 5);
    assert_eq!(awx::sts::CREDENTIAL_TIMEOUT_SECS, 30);
    assert_eq!(awx::mfa::MAX_ATTEMPTS, 3);
}

#[test]
fn absent_sources_give_an_empty_table() {
    let profiles = load_profiles(&SourceText::Absent, &SourceText::Absent).ok().unwrap();
    assert!(profiles.is_empty());
    assert_eq!(profiles.len(), 0);
}

#[test]
fn unreadable_source_is_an_error() {
    let r = load_profiles(&SourceText::Unreadable, &present(CREDENTIALS));
    assert_eq!(r.err(), Some(ConfigError::Unreadable(Source::Config)));
    let r = load_profiles(&present(CONFIG), &SourceText::Unreadable);
    assert_eq!(r.err(), Some(ConfigError::Unreadable(Source::Credentials)));
    let r = load_profiles(&SourceText::Unreadable, &SourceText::Unreadable);
    assert_eq!(r.err(), Some(ConfigError::Unreadable(Source::Config)));
}

#[test]
fn credentials_source_fills_keys_only() {
    let creds = "[p]\nregion = eu-west-1\naws_access_key_id = K\naws_secret_access_key = S\naws_session_token = T\n";
    let profiles = load_profiles(&SourceText::Absent, &present(creds)).ok().unwrap();
    let p = profiles.get("p").unwrap();
    assert_eq!(p.region, None);
    assert_eq!(p.aws_access_key_id.as_deref(), Some("K"));
    assert_eq!(p.aws_secret_access_key.as_deref(), Some("S"));
    assert_eq!(p.aws_session_token.as_deref(), Some("T"));
    let profiles = load_profiles(&present(creds), &SourceText::Absent).ok().unwrap();
    let p = profiles.get("p").unwrap();
    assert_eq!(p.region.as_deref(), Some("eu-west-1"));
    assert_eq!(p.aws_access_key_id, None);
}

#[test]
fn parse_ini_grammar() {
    let doc = parse_ini("top = 1\n# note\n; note\n\n  [ one ]  \r\n a = b = c \nnovalue\n[two]\n[one]\na=z\nk =\n");
    assert_eq!(doc.sections.len(), 2);
    assert_eq!(doc.sections[0].name, "default");
    assert_eq!(doc.sections[0].get("top").map(|s| s.as_str()), Some("1"));
    assert_eq!(doc.sections[1].name, "one");
    assert_eq!(doc.sections[1].entries.len(), 2);
    assert_eq!(doc.sections[1].get("a").map(|s| s.as_str()), Some("z"));
    assert_eq!(doc.sections[1].get("k").map(|s| s.as_str()), Some(""));
    assert_eq!(doc.sections[1].get("novalue"), None);
    assert_eq!(doc.position("two"), 2);
    assert_eq!(doc.position("one"), 1);
    assert_eq!(doc.sections[1].position("k"), 1);
}

#[test]
fn parse_ini_without_final_newline() {
    let doc = parse_ini("[s]\nkey=value");
    assert_eq!(doc.sections.len(), 1);
    assert_eq!(doc.sections[0].get("key").map(|s| s.as_str()), Some("value"));
    assert_eq!(parse_ini("").sections.len(), 0);
}

#[test]
fn predicates_are_independent() {
    let mut p = Profile::default();
    assert!(!p.is_sso() && !p.is_role() && !p.is_static() && !p.requires_mfa());
    assert_eq!(p.kinds(), ProfileKinds { sso: false, role: false, keys: KeyKind::NoKeys });
    p.mfa_serial = Some("arn".to_string());
    assert_eq!(p.kinds().keys, KeyKind::NoKeys);
    p.mfa_serial = None;
    p.aws_access_key_id = Some("K".to_string());
    assert!(!p.is_static());
    p.aws_secret_access_key = Some("S".to_string());
    assert!(p.is_static());
    p.mfa_serial = Some("arn".to_string());
    assert!(p.is_static() && p.requires_mfa());
    p.role_arn = Some("r".to_string());
    assert!(p.is_role());
    p.sso_region = Some("us".to_string());
    assert!(p.is_sso());
    assert_eq!(p.kinds(), ProfileKinds { sso: true, role: true, keys: KeyKind::StaticWithMfa });
    p.mfa_serial = None;
    assert_eq!(p.kinds().keys, KeyKind::StaticOnly);
}
