use horizon_core::permissions::{
    parse_permission, parse_scope, permission_label, Permission, PermissionManager,
    PermissionScope,
};

#[test]
fn parse_permission_accepts_the_seven_names() {
    assert_eq!(parse_permission("FileRead").unwrap(), Permission::FileRead);
    assert_eq!(parse_permission("FileWrite").unwrap(), Permission::FileWrite);
    assert_eq!(parse_permission("CommandExecute").unwrap(), Permission::CommandExecute);
    assert_eq!(parse_permission("NetworkAccess").unwrap(), Permission::NetworkAccess);
    assert_eq!(parse_permission("RemoteAccess").unwrap(), Permission::RemoteAccess);
    assert_eq!(parse_permission("MemoryAccess").unwrap(), Permission::MemoryAccess);
    assert_eq!(parse_permission("RepoAnalyze").unwrap(), Permission::RepoAnalyze);
}

#[test]
fn parse_permission_rejects_unknown_names() {
    match parse_permission("fileread") {
        Err(e) => assert_eq!(e, "Unknown permission: fileread"),
        Ok(_) => panic!("an unknown permission name must be refused"),
    }
}

#[test]
fn permission_labels_round_trip() {
    let label = permission_label(&Permission::RepoAnalyze);
    assert_eq!(label, "RepoAnalyze");
    assert_eq!(parse_permission(&label).unwrap(), Permission::RepoAnalyze);
}

#[test]
fn parse_scope_keywords() {
    assert_eq!(
        parse_scope("temporary", Some(5), None).unwrap(),
        PermissionScope::Temporary { duration_minutes: 5 }
    );
    assert_eq!(
        parse_scope("temporary", None, None).unwrap(),
        PermissionScope::Temporary { duration_minutes: 60 }
    );
    assert_eq!(parse_scope("session", None, None).unwrap(), PermissionScope::Session);
    assert_eq!(
        parse_scope("project", None, Some("p1".to_string())).unwrap(),
        PermissionScope::Project { project_id: "p1".to_string() }
    );
    match parse_scope("project", None, None) {
        Err(e) => assert_eq!(e, "project_id required for project scope"),
        Ok(_) => panic!("a project scope without a project id must be refused"),
    }
    assert_eq!(parse_scope("global", None, None).unwrap(), PermissionScope::Global);
    assert_eq!(parse_scope("whatever", None, None).unwrap(), PermissionScope::Global);
}

#[test]
fn temporary_grant_expires() {
    let now = 1_000_000;
    let mut m = PermissionManager::new();
    let log = m.prepare_permission_with_scope(
        Permission::FileRead,
        "reading a file",
        true,
        PermissionScope::Temporary { duration_minutes: 1 },
        None,
        now,
    );
    assert_eq!(log.scope.as_deref(), Some("temporary:1min"));
    assert!(log.granted);
    assert_eq!(log.user_action, "User granted permission");
    assert!(m.has_permission(&Permission::FileRead, now));
    assert!(m.has_permission(&Permission::FileRead, now + 60_000));
    assert!(!m.has_permission(&Permission::FileRead, now + 60_001));
    // sweeping at a later instant removes exactly that grant
    let removed = m.cleanup_expired_permissions(now + 60_001);
    assert_eq!(removed, 1);
    assert!(!m.has_permission(&Permission::FileRead, now));
}

#[test]
fn denied_decision_is_logged_but_grants_nothing() {
    let mut m = PermissionManager::new();
    let log = m.prepare_permission(Permission::FileWrite, "writing", false, 7);
    assert!(!log.granted);
    assert_eq!(log.user_action, "User denied permission");
    assert_eq!(log.scope.as_deref(), Some("global"));
    assert!(!m.has_permission(&Permission::FileWrite, 7));
    assert_eq!(m.get_audit_logs().len(), 1);
}

#[test]
fn project_scoped_grant_is_isolated() {
    let now = 0;
    let mut m = PermissionManager::new();
    m.prepare_permission_with_scope(
        Permission::RepoAnalyze,
        "analyzing",
        true,
        PermissionScope::Project { project_id: "p1".to_string() },
        Some("p1".to_string()),
        now,
    );
    let p1 = "p1".to_string();
    let p2 = "p2".to_string();
    assert!(m.has_permission_with_context(&Permission::RepoAnalyze, Some(&p1), None, now));
    assert!(!m.has_permission_with_context(&Permission::RepoAnalyze, Some(&p2), None, now));
    // a global grant applies to every project
    m.prepare_permission(Permission::RepoAnalyze, "analyzing", true, now);
    assert!(m.has_permission_with_context(&Permission::RepoAnalyze, Some(&p2), None, now));
}

#[test]
fn revoke_by_project_keeps_other_grants() {
    let now = 0;
    let mut m = PermissionManager::new();
    m.prepare_permission_with_scope(
        Permission::FileRead,
        "ctx",
        true,
        PermissionScope::Project { project_id: "p1".to_string() },
        Some("p1".to_string()),
        now,
    );
    m.prepare_permission(Permission::FileRead, "ctx", true, now);
    let p1 = "p1".to_string();
    assert!(m.revoke_permission(&Permission::FileRead, Some(&p1)));
    // the global grant survives a project revocation
    assert!(m.has_permission(&Permission::FileRead, now));
    assert!(m.revoke_permission(&Permission::FileRead, None));
    assert!(!m.has_permission(&Permission::FileRead, now));
    assert!(!m.revoke_permission(&Permission::FileRead, None));
}

#[test]
fn parano_mode_consumes_the_grant() {
    let now = 0;
    let mut m = PermissionManager::new();
    assert!(m.is_parano_mode());
    m.prepare_permission(Permission::CommandExecute, "running", true, now);
    m.check_and_consume_permission(&Permission::CommandExecute, "running", now).unwrap();
    // consumed: a second use must ask again
    match m.check_and_consume_permission(&Permission::CommandExecute, "running again", now) {
        Err(e) => assert_eq!(e, "Permission CommandExecute is required for: running again"),
        Ok(()) => panic!("a consumed permission must not check out twice"),
    }
    let logs = m.get_audit_logs();
    assert_eq!(logs.last().unwrap().user_action, "Permission consumed (parano mode)");
}

#[test]
fn normal_mode_keeps_the_grant() {
    let now = 0;
    let mut m = PermissionManager::new();
    m.set_parano_mode(false);
    assert!(!m.is_parano_mode());
    m.prepare_permission(Permission::NetworkAccess, "calling", true, now);
    m.check_and_consume_permission(&Permission::NetworkAccess, "calling", now).unwrap();
    m.check_and_consume_permission(&Permission::NetworkAccess, "calling", now).unwrap();
    assert!(m.has_permission(&Permission::NetworkAccess, now));
}

#[test]
fn consume_message_names_the_project() {
    let now = 0;
    let mut m = PermissionManager::new();
    let p1 = "p1".to_string();
    match m.check_and_consume_permission_with_context(
        &Permission::FileRead,
        "reading",
        Some(&p1),
        now,
    ) {
        Err(e) => assert_eq!(e, "Permission FileRead is required for: reading (project: p1)"),
        Ok(()) => panic!("a missing permission must be reported"),
    }
}

#[test]
fn clearing_audit_logs_empties_them() {
    let mut m = PermissionManager::new();
    m.prepare_permission(Permission::FileRead, "ctx", true, 0);
    assert_eq!(m.get_audit_logs().len(), 1);
    m.clear_audit_logs();
    assert!(m.get_audit_logs().is_empty());
    // the grant itself is untouched
    assert!(m.has_permission(&Permission::FileRead, 0));
}

#[test]
fn scope_equality_is_structural() {
    let a = PermissionScope::Project { project_id: "p".to_string() };
    let b = PermissionScope::Project { project_id: "p".to_string() };
    let c = PermissionScope::Project { project_id: "q".to_string() };
    assert_eq!(a, b);
    assert_ne!(a, c);
    assert_ne!(PermissionScope::Session, PermissionScope::Global);
    // and the scope filter of a check goes by it
    let now = 0;
    let mut m = PermissionManager::new();
    m.prepare_permission_with_scope(
        Permission::FileRead,
        "ctx",
        true,
        PermissionScope::Session,
        None,
        now,
    );
    assert!(m.has_permission_with_context(
        &Permission::FileRead,
        None,
        Some(&PermissionScope::Session),
        now
    ));
    assert!(!m.has_permission_with_context(
        &Permission::FileRead,
        None,
        Some(&PermissionScope::Global),
        now
    ));
}
