use std::{io, path::PathBuf, time::Duration};

use xfercat::domain::{Authentication, ConnectionProfile, ConnectionProfileSource, Protocol};
use xfercat::sftp::{
    classify_openssh_error, connection_builder, session_plan, is_safe_entry_name, is_safe_remote_path,
    ConnectionOptions, SftpFailureKind,
};

fn manual_profile(authentication: Authentication) -> ConnectionProfile {
    ConnectionProfile {
        id: "fixture".into(),
        label: "fixture".into(),
        source: ConnectionProfileSource::Manual,
        protocol: Protocol::Sftp,
        user: "operator".into(),
        host: "fixture.invalid".into(),
        authentication,
    }
}

#[test]
fn resolves_imported_alias_without_copying_effective_config() {
    let profile = ConnectionProfile::open_ssh("fixture-host");
    let options = ConnectionOptions {
        config_file: Some(PathBuf::from("fixture-config")),
        known_hosts_file: Some(PathBuf::from("fixture-known-hosts")),
        control_directory: Some(PathBuf::from("fixture-control")),
        connect_timeout: Duration::from_secs(3),
    };

    let (builder, destination) =
        connection_builder(&profile, &options).expect("valid imported profile");

    assert_eq!(destination, "fixture-host");
    assert_eq!(builder.get_user(), None);
}

#[test]
fn resolves_manual_agent_and_key_profiles_without_secret_material() {
    let mut profile = manual_profile(Authentication::SshAgent);
    let (builder, destination) = connection_builder(&profile, &ConnectionOptions::default())
        .expect("valid agent profile");
    assert_eq!(destination, "fixture.invalid");
    assert_eq!(builder.get_user(), Some("operator"));

    profile.authentication = Authentication::KeyReference("keys/fixture_ed25519".into());
    let (builder, _) =
        connection_builder(&profile, &ConnectionOptions::default()).expect("valid key profile");
    assert_eq!(builder.get_user(), Some("operator"));
}

#[test]
fn session_plans_carry_only_the_settings_a_profile_decides() {
    let options = ConnectionOptions {
        config_file: None,
        known_hosts_file: None,
        control_directory: None,
        connect_timeout: Duration::from_secs(3),
    };
    let plan = session_plan(&ConnectionProfile::open_ssh("fixture-host"), &options)
        .expect("valid imported profile");
    assert_eq!(plan.destination, "fixture-host");
    assert_eq!(plan.user, None);
    assert_eq!(plan.keyfile, None);
    assert_eq!(plan.connect_timeout, Duration::from_secs(3));

    let mut profile = manual_profile(Authentication::KeyReference("keys/fixture_ed25519".into()));
    let plan = session_plan(&profile, &options).expect("valid key profile");
    assert_eq!(plan.user.as_deref(), Some("operator"));
    assert_eq!(plan.keyfile.as_deref(), Some("keys/fixture_ed25519"));

    profile.authentication = Authentication::KeyReference(String::new());
    assert_eq!(
        session_plan(&profile, &options).expect_err("empty key reference must fail").kind,
        SftpFailureKind::InvalidProfile
    );
}

#[test]
fn rejects_synthetic_mismatched_and_option_like_profiles() {
    let mut profile = manual_profile(Authentication::SshAgent);
    profile.source = ConnectionProfileSource::Synthetic;
    assert_eq!(
        connection_builder(&profile, &ConnectionOptions::default())
            .err()
            .expect("synthetic profile must fail")
            .kind,
        SftpFailureKind::InvalidProfile
    );

    profile.source = ConnectionProfileSource::Manual;
    profile.authentication = Authentication::OpenSshConfig;
    assert_eq!(
        connection_builder(&profile, &ConnectionOptions::default())
            .err()
            .expect("mismatched auth must fail")
            .kind,
        SftpFailureKind::InvalidProfile
    );

    profile.authentication = Authentication::SshAgent;
    profile.host = "-oProxyCommand=unsafe".into();
    assert_eq!(
        connection_builder(&profile, &ConnectionOptions::default())
            .err()
            .expect("option-like destination must fail")
            .kind,
        SftpFailureKind::InvalidProfile
    );
}

#[test]
fn accepts_only_absolute_safe_remote_paths_and_leaf_names() {
    assert!(is_safe_remote_path("/srv/incoming"));
    assert!(!is_safe_remote_path("srv/incoming"));
    assert!(!is_safe_remote_path("/srv/in\ncoming"));
    assert!(is_safe_entry_name("payload.bin"));
    assert!(!is_safe_entry_name(".."));
    assert!(!is_safe_entry_name("nested/name"));
}

#[test]
fn classifies_connection_failures_without_exposing_raw_diagnostics() {
    let authentication = classify_openssh_error(openssh::Error::Connect(io::Error::new(
        io::ErrorKind::PermissionDenied,
        "fixture credential rejected",
    )));
    let host = classify_openssh_error(openssh::Error::Connect(io::Error::new(
        io::ErrorKind::ConnectionAborted,
        "Host key verification failed for fixture.invalid",
    )));

    assert_eq!(authentication.kind, SftpFailureKind::Authentication);
    assert_eq!(host.kind, SftpFailureKind::HostVerification);
    assert!(!authentication.status().contains("fixture"));
    assert!(!host.status().contains("fixture.invalid"));
}
