use openlogi::registration::{
    domain, embedded_plist, ensure_action, escape_xml, forgive, is_sm_app_service_error,
    legacy_status, registered_version_path_in, registration_is_stale, rewrite_program,
    shows_approval_notice, sm_status, EnsureAction, ServiceError, ServiceStatus,
    SM_ERROR_ALREADY_REGISTERED, SM_ERROR_JOB_NOT_FOUND,
};

#[test]
fn bundle_program_becomes_an_absolute_program() {
    let embedded = "<dict>\n\t<key>BundleProgram</key>\n\t<string>Contents/MacOS/agent</string>\n\t<key>Label</key>\n</dict>";
    let rewritten = rewrite_program(embedded, "/Apps/A&B.app").unwrap();
    assert_eq!(
        rewritten,
        "<dict>\n\t<key>Program</key>\n\t<string>/Apps/A&amp;B.app/Contents/MacOS/agent</string>\n\t<key>Label</key>\n</dict>"
    );
}

#[test]
fn an_absent_service_is_registered() {
    assert_eq!(
        ensure_action(ServiceStatus::NotRegistered, false),
        Some(EnsureAction::Register)
    );
    // A fresh install has no marker, which reads as stale — that must
    // still be a plain register, not an unregister dance.
    assert_eq!(
        ensure_action(ServiceStatus::NotRegistered, true),
        Some(EnsureAction::Register)
    );
}

#[test]
fn a_missing_plist_still_attempts_registration() {
    assert_eq!(
        ensure_action(ServiceStatus::NotFound, false),
        Some(EnsureAction::Register)
    );
}

#[test]
fn a_current_registration_is_left_alone() {
    assert_eq!(ensure_action(ServiceStatus::Enabled, false), None);
}

#[test]
fn an_update_reregisters() {
    assert_eq!(
        ensure_action(ServiceStatus::Enabled, true),
        Some(EnsureAction::Reregister)
    );
}

#[test]
fn a_system_settings_disable_is_never_overridden() {
    assert_eq!(ensure_action(ServiceStatus::RequiresApproval, false), None);
    assert_eq!(ensure_action(ServiceStatus::RequiresApproval, true), None);
}

#[test]
fn only_the_frameworks_own_error_domain_and_code_match() {
    for (domain, code, expected, matches) in [
        ("SMAppServiceErrorDomain", 12, SM_ERROR_ALREADY_REGISTERED, true),
        ("SMAppServiceErrorDomain", 6, SM_ERROR_JOB_NOT_FOUND, true),
        // The other operation's benign code is a real failure for this one.
        ("SMAppServiceErrorDomain", 12, SM_ERROR_JOB_NOT_FOUND, false),
        ("SMAppServiceErrorDomain", 6, SM_ERROR_ALREADY_REGISTERED, false),
        // ENOMEM is 12 too; POSIX/OSStatus errors must never match.
        ("NSPOSIXErrorDomain", 12, SM_ERROR_ALREADY_REGISTERED, false),
        ("NSOSStatusErrorDomain", 6, SM_ERROR_JOB_NOT_FOUND, false),
        ("SMAppServiceErrorDomain", -1, SM_ERROR_ALREADY_REGISTERED, false),
    ] {
        let error = ServiceError {
            domain: domain.to_string(),
            code,
            description: String::from("failed"),
        };
        assert_eq!(
            is_sm_app_service_error(&error, expected),
            matches,
            "domain={domain}, code={code}, expected={expected}"
        );
    }
}

#[test]
fn only_the_benign_code_is_forgiven() {
    let benign = ServiceError {
        domain: String::from("SMAppServiceErrorDomain"),
        code: 12,
        description: String::from("already registered"),
    };
    assert_eq!(forgive(Err(benign), SM_ERROR_ALREADY_REGISTERED), Ok(()));
    let real = ServiceError {
        domain: String::from("NSPOSIXErrorDomain"),
        code: 12,
        description: String::from("out of memory"),
    };
    assert_eq!(
        forgive(Err(real), SM_ERROR_ALREADY_REGISTERED),
        Err(String::from("out of memory"))
    );
    assert_eq!(forgive(Ok(()), SM_ERROR_JOB_NOT_FOUND), Ok(()));
}

#[test]
fn a_missing_or_different_marker_is_stale() {
    assert!(registration_is_stale(None, "1.2.0"));
    assert!(!registration_is_stale(Some("1.2.0\n"), "1.2.0"));
    assert!(!registration_is_stale(Some("  1.2.0  "), "1.2.0"));
    assert!(registration_is_stale(Some("1.1.9"), "1.2.0"));
}

#[test]
fn framework_statuses_map_to_service_states() {
    assert_eq!(sm_status(0), ServiceStatus::NotRegistered);
    assert_eq!(sm_status(1), ServiceStatus::Enabled);
    assert_eq!(sm_status(2), ServiceStatus::RequiresApproval);
    assert_eq!(sm_status(3), ServiceStatus::NotFound);
    assert_eq!(sm_status(99), ServiceStatus::NotRegistered);
}

#[test]
fn legacy_status_needs_both_plists() {
    assert_eq!(legacy_status(false, false), ServiceStatus::NotFound);
    assert_eq!(legacy_status(true, false), ServiceStatus::NotRegistered);
    assert_eq!(legacy_status(true, true), ServiceStatus::Enabled);
}

#[test]
fn xml_text_is_escaped() {
    assert_eq!(escape_xml("A&B <c> \"d\""), "A&amp;B &lt;c&gt; \"d\"");
    assert_eq!(escape_xml("plain"), "plain");
}

#[test]
fn a_plist_without_bundle_program_is_refused() {
    assert!(rewrite_program("<dict></dict>", "/Apps/A.app").is_err());
}

#[test]
fn launchd_domains_and_marker_paths() {
    assert_eq!(domain(Some(501)), Ok(String::from("gui/501")));
    assert!(domain(None).is_err());
    assert_eq!(registered_version_path_in("/d"), "/d/registration-version");
    assert_eq!(
        embedded_plist("/Apps/A.app", "app.openlogi.agent"),
        "/Apps/A.app/Contents/Library/LaunchAgents/app.openlogi.agent.plist"
    );
}

#[test]
fn only_a_service_awaiting_approval_shows_the_notice() {
    assert!(shows_approval_notice(ServiceStatus::RequiresApproval));
    assert!(!shows_approval_notice(ServiceStatus::Enabled));
    assert!(!shows_approval_notice(ServiceStatus::NotRegistered));
}
