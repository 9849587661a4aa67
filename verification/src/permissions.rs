//! Permission manager: grants carry a scope (temporary, session, project or
//! global) and possibly an expiry; checks filter by expiry, scope and
//! project; in parano mode a successful check consumes the grant.  Time is a
//! millisecond timestamp handed in by the caller, so every rule here is a
//! pure decision.

use vstd::prelude::*;
use vstd::string::*;
use crate::text;

verus! {

/// The permissions the shell can ask for.
#[derive(Clone, Copy, PartialEq, Eq, Structural, Debug, Hash)]
pub enum Permission {
    FileRead,
    FileWrite,
    CommandExecute,
    NetworkAccess,
    RemoteAccess,
    MemoryAccess,
    RepoAnalyze,
}

/// The canonical spelling of a permission's name.
pub open spec fn permission_name(p: Permission) -> Seq<char> {
    match p {
        Permission::FileRead => "FileRead"@,
        Permission::FileWrite => "FileWrite"@,
        Permission::CommandExecute => "CommandExecute"@,
        Permission::NetworkAccess => "NetworkAccess"@,
        Permission::RemoteAccess => "RemoteAccess"@,
        Permission::MemoryAccess => "MemoryAccess"@,
        Permission::RepoAnalyze => "RepoAnalyze"@,
    }
}

/// Renders a permission's name.
pub fn permission_label(p: &Permission) -> (r: String)
    ensures
        r@ == permission_name(*p),
{
    match p {
        Permission::FileRead => "FileRead".to_owned(),
        Permission::FileWrite => "FileWrite".to_owned(),
        Permission::CommandExecute => "CommandExecute".to_owned(),
        Permission::NetworkAccess => "NetworkAccess".to_owned(),
        Permission::RemoteAccess => "RemoteAccess".to_owned(),
        Permission::MemoryAccess => "MemoryAccess".to_owned(),
        Permission::RepoAnalyze => "RepoAnalyze".to_owned(),
    }
}

/// Parses a permission name; exactly the seven known names are accepted.
pub fn parse_permission(permission: &str) -> (r: Result<Permission, String>)
    ensures
        permission@ == "FileRead"@ ==> r == Ok::<Permission, String>(Permission::FileRead),
        permission@ == "FileWrite"@ ==> r == Ok::<Permission, String>(Permission::FileWrite),
        permission@ == "CommandExecute"@ ==> r == Ok::<Permission, String>(
            Permission::CommandExecute,
        ),
        permission@ == "NetworkAccess"@ ==> r == Ok::<Permission, String>(
            Permission::NetworkAccess,
        ),
        permission@ == "RemoteAccess"@ ==> r == Ok::<Permission, String>(Permission::RemoteAccess),
        permission@ == "MemoryAccess"@ ==> r == Ok::<Permission, String>(Permission::MemoryAccess),
        permission@ == "RepoAnalyze"@ ==> r == Ok::<Permission, String>(Permission::RepoAnalyze),
        r matches Ok(p) ==> permission@ == permission_name(p),
        r matches Err(e) ==> e@ == "Unknown permission: "@ + permission@ && (forall|p: Permission|
            permission@ != permission_name(p)),
    {
    proof {
        reveal_strlit("FileRead");
        reveal_strlit("FileWrite");
        reveal_strlit("CommandExecute");
        reveal_strlit("NetworkAccess");
        reveal_strlit("RemoteAccess");
        reveal_strlit("MemoryAccess");
        reveal_strlit("RepoAnalyze");
        assert("FileRead"@.len() == 8);
        assert("FileWrite"@.len() == 9);
        assert("CommandExecute"@.len() == 14);
        assert("NetworkAccess"@.len() == 13);
        assert("RemoteAccess"@.len() == 12);
        assert("MemoryAccess"@.len() == 12);
        assert("RepoAnalyze"@.len() == 11);
        assert("RemoteAccess"@[0] == 'R');
        assert("MemoryAccess"@[0] == 'M');
        assert("RemoteAccess"@ != "MemoryAccess"@);
    }
    if text::str_eq(permission, "FileRead") {
        Ok(Permission::FileRead)
    } else if text::str_eq(permission, "FileWrite") {
        Ok(Permission::FileWrite)
    } else if text::str_eq(permission, "CommandExecute") {
        Ok(Permission::CommandExecute)
    } else if text::str_eq(permission, "NetworkAccess") {
        Ok(Permission::NetworkAccess)
    } else if text::str_eq(permission, "RemoteAccess") {
        Ok(Permission::RemoteAccess)
    } else if text::str_eq(permission, "MemoryAccess") {
        Ok(Permission::MemoryAccess)
    } else if text::str_eq(permission, "RepoAnalyze") {
        Ok(Permission::RepoAnalyze)
    } else {
        let mut e = "Unknown permission: ".to_owned();
        e.append(permission);
        proof {
            assert forall|p: Permission| permission@ != permission_name(p) by {
                match p {
                    Permission::FileRead => assert(permission@ != "FileRead"@),
                    Permission::FileWrite => assert(permission@ != "FileWrite"@),
                    Permission::CommandExecute => assert(permission@ != "CommandExecute"@),
                    Permission::NetworkAccess => assert(permission@ != "NetworkAccess"@),
                    Permission::RemoteAccess => assert(permission@ != "RemoteAccess"@),
                    Permission::MemoryAccess => assert(permission@ != "MemoryAccess"@),
                    Permission::RepoAnalyze => assert(permission@ != "RepoAnalyze"@),
                }
            }
        }
        Err(e)
    }
}

/// A grant's scope.
#[derive(Clone, Debug)]
pub enum PermissionScope {
    /// Expires after this many minutes.
    Temporary { duration_minutes: i64 },
    /// Lives until the application restarts.
    Session,
    /// Applies to one project only, until revoked.
    Project { project_id: String },
    /// Applies everywhere, until revoked.
    Global,
}

/// When two scopes count as the same scope.
pub open spec fn scope_matches(a: PermissionScope, b: PermissionScope) -> bool {
    match (a, b) {
        (
            PermissionScope::Temporary { duration_minutes: x },
            PermissionScope::Temporary { duration_minutes: y },
        ) => x == y,
        (PermissionScope::Session, PermissionScope::Session) => true,
        (
            PermissionScope::Project { project_id: x },
            PermissionScope::Project { project_id: y },
        ) => x@ == y@,
        (PermissionScope::Global, PermissionScope::Global) => true,
        _ => false,
    }
}

impl PartialEq for PermissionScope {
    fn eq(&self, other: &PermissionScope) -> (r: bool) {
        match (self, other) {
            (
                PermissionScope::Temporary { duration_minutes: x },
                PermissionScope::Temporary { duration_minutes: y },
            ) => *x == *y,
            (PermissionScope::Session, PermissionScope::Session) => true,
            (
                PermissionScope::Project { project_id: x },
                PermissionScope::Project { project_id: y },
            ) => *x == *y,
            (PermissionScope::Global, PermissionScope::Global) => true,
            _ => false,
        }
    }
}

impl vstd::std_specs::cmp::PartialEqSpecImpl for PermissionScope {
    open spec fn obeys_eq_spec() -> bool {
        true
    }

    open spec fn eq_spec(&self, other: &PermissionScope) -> bool {
        scope_matches(*self, *other)
    }
}

/// Copies a scope, field by field.
fn clone_scope(s: &PermissionScope) -> (r: PermissionScope)
    ensures
        r == *s,
{
    match s {
        PermissionScope::Temporary { duration_minutes } => PermissionScope::Temporary {
            duration_minutes: *duration_minutes,
        },
        PermissionScope::Session => PermissionScope::Session,
        PermissionScope::Project { project_id } => PermissionScope::Project {
            project_id: project_id.clone(),
        },
        PermissionScope::Global => PermissionScope::Global,
    }
}

/// Copies an optional string.
fn clone_opt_string(o: &Option<String>) -> (r: Option<String>)
    ensures
        r == *o,
{
    match o {
        Some(s) => Some(s.clone()),
        None => None,
    }
}

/// The label under which a scope appears in the audit log.
pub open spec fn scope_label(scope: PermissionScope) -> Seq<char> {
    match scope {
        PermissionScope::Temporary { duration_minutes } => "temporary:"@ + text::int_digits(
            duration_minutes as int,
        ) + "min"@,
        PermissionScope::Session => "session"@,
        PermissionScope::Project { project_id } => "project:"@ + project_id@,
        PermissionScope::Global => "global"@,
    }
}

/// Renders a scope's audit-log label.
pub fn scope_label_string(scope: &PermissionScope) -> (r: String)
    ensures
        r@ == scope_label(*scope),
{
    match scope {
        PermissionScope::Temporary { duration_minutes } => {
            let mut s = "temporary:".to_owned();
            let digits = text::i64_to_string(*duration_minutes);
            s.append(digits.as_str());
            s.append("min");
            s
        },
        PermissionScope::Session => "session".to_owned(),
        PermissionScope::Project { project_id } => {
            let mut s = "project:".to_owned();
            s.append(project_id.as_str());
            s
        },
        PermissionScope::Global => "global".to_owned(),
    }
}

/// When a grant with this scope expires, measured from the instant of the
/// grant; `None` when it only ends by revocation or restart.
pub open spec fn scope_expiry(scope: PermissionScope, now_ms: i64) -> Option<i64> {
    match scope {
        PermissionScope::Temporary { duration_minutes } => Some(
            (now_ms + duration_minutes * 60000) as i64,
        ),
        _ => None,
    }
}

/// One grant, with its metadata.
#[derive(Clone, Debug)]
pub struct PermissionEntry {
    pub permission: Permission,
    pub scope: PermissionScope,
    pub granted_at_ms: i64,
    pub expires_at_ms: Option<i64>,
    pub context: String,
    pub project_id: Option<String>,
}

/// One audit-log record.
#[derive(Clone, Debug)]
pub struct PermissionLog {
    pub timestamp_ms: i64,
    pub permission: Permission,
    pub granted: bool,
    pub context: String,
    pub user_action: String,
    pub scope: Option<String>,
    pub project_id: Option<String>,
}

/// Copies an audit-log record, field by field.
fn clone_log(l: &PermissionLog) -> (r: PermissionLog)
    ensures
        r == *l,
{
    PermissionLog {
        timestamp_ms: l.timestamp_ms,
        permission: l.permission,
        granted: l.granted,
        context: l.context.clone(),
        user_action: l.user_action.clone(),
        scope: clone_opt_string(&l.scope),
        project_id: clone_opt_string(&l.project_id),
    }
}

/// A grant that has not expired at the given instant.
pub open spec fn entry_live(e: PermissionEntry, now_ms: i64) -> bool {
    match e.expires_at_ms {
        Some(t) => now_ms <= t,
        None => true,
    }
}

/// Whether a grant passes an optional scope filter.
pub open spec fn scope_filter_ok(e: PermissionEntry, filter: Option<PermissionScope>) -> bool {
    match filter {
        Some(f) => scope_matches(e.scope, f),
        None => true,
    }
}

/// Whether a grant applies under an optional project: a project-scoped grant
/// applies only to its own project, every other scope applies everywhere.
pub open spec fn project_ok(e: PermissionEntry, project_id: Option<Seq<char>>) -> bool {
    match project_id {
        Some(pid) => match e.scope {
            PermissionScope::Project { project_id: epid } => epid@ == pid,
            _ => true,
        },
        None => true,
    }
}

/// Whether a grant answers a permission check.
pub open spec fn entry_grants(
    e: PermissionEntry,
    permission: Permission,
    project_id: Option<Seq<char>>,
    filter: Option<PermissionScope>,
    now_ms: i64,
) -> bool {
    e.permission == permission && entry_live(e, now_ms) && scope_filter_ok(e, filter) && project_ok(
        e,
        project_id,
    )
}

/// The view of an optional borrowed string.
pub open spec fn opt_view(o: Option<&String>) -> Option<Seq<char>> {
    match o {
        Some(s) => Some(s@),
        None => None,
    }
}

/// Whether a grant is removed by a revocation: it must name the revoked
/// permission, and when the revocation is limited to one project only grants
/// scoped to that project go.
pub open spec fn revoke_removes(
    e: PermissionEntry,
    permission: Permission,
    project_id: Option<Seq<char>>,
) -> bool {
    e.permission == permission && match project_id {
        Some(pid) => e.scope matches PermissionScope::Project { project_id: epid } && epid@ == pid,
        None => true,
    }
}

/// The grants that survive a revocation, in order.
pub open spec fn surviving_grants(
    s: Seq<PermissionEntry>,
    permission: Permission,
    project_id: Option<Seq<char>>,
) -> Seq<PermissionEntry>
    decreases s.len(),
{
    if s.len() == 0 {
        Seq::empty()
    } else {
        let rest = surviving_grants(s.drop_last(), permission, project_id);
        if revoke_removes(s.last(), permission, project_id) {
            rest
        } else {
            rest.push(s.last())
        }
    }
}

/// The grants not yet expired at an instant, in order.
pub open spec fn live_grants(s: Seq<PermissionEntry>, now_ms: i64) -> Seq<PermissionEntry>
    decreases s.len(),
{
    if s.len() == 0 {
        Seq::empty()
    } else {
        let rest = live_grants(s.drop_last(), now_ms);
        if entry_live(s.last(), now_ms) {
            rest.push(s.last())
        } else {
            rest
        }
    }
}

/// Surviving a revocation never adds grants.
pub proof fn lemma_surviving_grants_len(
    s: Seq<PermissionEntry>,
    permission: Permission,
    project_id: Option<Seq<char>>,
)
    ensures
        surviving_grants(s, permission, project_id).len() <= s.len(),
    decreases s.len(),
{
    if s.len() > 0 {
        lemma_surviving_grants_len(s.drop_last(), permission, project_id);
    }
}

/// Expiry never adds grants.
pub proof fn lemma_live_grants_len(s: Seq<PermissionEntry>, now_ms: i64)
    ensures
        live_grants(s, now_ms).len() <= s.len(),
    decreases s.len(),
{
    if s.len() > 0 {
        lemma_live_grants_len(s.drop_last(), now_ms);
    }
}

/// The grant table, the audit log and the parano flag.
pub struct PermissionManager {
    granted: Vec<PermissionEntry>,
    audit_logs: Vec<PermissionLog>,
    parano_mode: bool,
}

impl PermissionManager {
    /// Every grant currently held, in grant order.
    pub closed spec fn granted_entries(self) -> Seq<PermissionEntry> {
        self.granted@
    }

    /// The audit log, in order.
    pub closed spec fn logs(self) -> Seq<PermissionLog> {
        self.audit_logs@
    }

    /// Whether parano mode is on: grants are consumed by use.
    pub closed spec fn parano(self) -> bool {
        self.parano_mode
    }

    /// A fresh manager: no grants, no logs, parano mode on.
    pub fn new() -> (r: Self)
        ensures
            r.granted_entries().len() == 0,
            r.logs().len() == 0,
            r.parano(),
    {
        PermissionManager { granted: Vec::new(), audit_logs: Vec::new(), parano_mode: true }
    }

    pub fn set_parano_mode(&mut self, enabled: bool)
        ensures
            final(self).parano() == enabled,
            final(self).granted_entries() == old(self).granted_entries(),
            final(self).logs() == old(self).logs(),
    {
        self.parano_mode = enabled;
    }

    pub fn is_parano_mode(&self) -> (r: bool)
        ensures
            r == self.parano(),
    {
        self.parano_mode
    }

    /// Records a decision and, when it was a grant, stores the grant with
    /// its expiry computed from the scope.
    pub fn prepare_permission_with_scope(
        &mut self,
        permission: Permission,
        context: &str,
        granted: bool,
        scope: PermissionScope,
        project_id: Option<String>,
        now_ms: i64,
    ) -> (r: PermissionLog)
        requires
            scope matches PermissionScope::Temporary { duration_minutes } ==> i64::MIN
                <= duration_minutes * 60000 <= i64::MAX && i64::MIN <= now_ms + duration_minutes
                * 60000 <= i64::MAX,
        ensures
            r.timestamp_ms == now_ms,
            r.permission == permission,
            r.granted == granted,
            r.context@ == context@,
            r.user_action@ == (if granted {
                "User granted permission"@
            } else {
                "User denied permission"@
            }),
            r.scope matches Some(s) && s@ == scope_label(scope),
            r.project_id == project_id,
            final(self).logs() == old(self).logs().push(r),
            final(self).parano() == old(self).parano(),
            !granted ==> final(self).granted_entries() == old(self).granted_entries(),
            granted ==> final(self).granted_entries().len() == old(self).granted_entries().len()
                + 1 && final(self).granted_entries().drop_last() == old(self).granted_entries()
                && ({
                let e = final(self).granted_entries().last();
                &&& e.permission == permission
                &&& e.scope == scope
                &&& e.granted_at_ms == now_ms
                &&& e.expires_at_ms == scope_expiry(scope, now_ms)
                &&& e.context@ == context@
                &&& e.project_id == project_id
            }),
    {
        if granted {
            let expires_at_ms: Option<i64> = match &scope {
                PermissionScope::Temporary { duration_minutes } => Some(
                    now_ms + *duration_minutes * 60000,
                ),
                PermissionScope::Session => None,
                PermissionScope::Project { .. } => None,
                PermissionScope::Global => None,
            };
            let entry = PermissionEntry {
                permission,
                scope: clone_scope(&scope),
                granted_at_ms: now_ms,
                expires_at_ms,
                context: context.to_owned(),
                project_id: clone_opt_string(&project_id),
            };
            self.granted.push(entry);
            proof {
                assert(self.granted@.drop_last() =~= old(self).granted_entries());
            }
        }
        let scope_str = scope_label_string(&scope);
        let log = PermissionLog {
            timestamp_ms: now_ms,
            permission,
            granted,
            context: context.to_owned(),
            user_action: if granted {
                "User granted permission".to_owned()
            } else {
                "User denied permission".to_owned()
            },
            scope: Some(scope_str),
            project_id,
        };
        let log_copy = clone_log(&log);
        self.audit_logs.push(log_copy);
        log
    }

    /// Records a decision under the global scope.
    pub fn prepare_permission(
        &mut self,
        permission: Permission,
        context: &str,
        granted: bool,
        now_ms: i64,
    ) -> (r: PermissionLog)
        ensures
            r.timestamp_ms == now_ms,
            r.permission == permission,
            r.granted == granted,
            r.context@ == context@,
            r.user_action@ == (if granted {
                "User granted permission"@
            } else {
                "User denied permission"@
            }),
            r.scope matches Some(s) && s@ == "global"@,
            r.project_id is None,
            final(self).logs() == old(self).logs().push(r),
            final(self).parano() == old(self).parano(),
            !granted ==> final(self).granted_entries() == old(self).granted_entries(),
            granted ==> final(self).granted_entries().len() == old(self).granted_entries().len()
                + 1 && final(self).granted_entries().drop_last() == old(self).granted_entries()
                && ({
                let e = final(self).granted_entries().last();
                &&& e.permission == permission
                &&& e.scope is Global
                &&& e.granted_at_ms == now_ms
                &&& e.expires_at_ms is None
                &&& e.context@ == context@
                &&& e.project_id is None
            }),
    {
        self.prepare_permission_with_scope(
            permission,
            context,
            granted,
            PermissionScope::Global,
            None,
            now_ms,
        )
    }

    /// Whether some live grant answers the check, under an optional project
    /// and an optional scope filter.
    pub fn has_permission_with_context(
        &self,
        permission: &Permission,
        project_id: Option<&String>,
        scope_filter: Option<&PermissionScope>,
        now_ms: i64,
    ) -> (r: bool)
        ensures
            r == exists|k: int|
                0 <= k < self.granted_entries().len() && entry_grants(
                    self.granted_entries()[k],
                    *permission,
                    opt_view(project_id),
                    match scope_filter {
                        Some(f) => Some(*f),
                        None => None,
                    },
                    now_ms,
                ),
    {
        let n = self.granted.len();
        let mut k: usize = 0;
        while k < n
            invariant
                k <= n,
                n == self.granted_entries().len(),
                forall|j: int|
                    0 <= j < k ==> !entry_grants(
                        self.granted_entries()[j],
                        *permission,
                        opt_view(project_id),
                        match scope_filter {
                            Some(f) => Some(*f),
                            None => None,
                        },
                        now_ms,
                    ),
            decreases n - k,
        {
            let e = &self.granted[k];
            let mut ok = e.permission == *permission;
            if ok {
                ok = match e.expires_at_ms {
                    Some(t) => now_ms <= t,
                    None => true,
                };
            }
            if ok {
                ok = match scope_filter {
                    Some(f) => e.scope == *f,
                    None => true,
                };
            }
            if ok {
                ok = match project_id {
                    Some(pid) => match &e.scope {
                        PermissionScope::Project { project_id: epid } => *epid == *pid,
                        _ => true,
                    },
                    None => true,
                };
            }
            if ok {
                return true;
            }
            k = k + 1;
        }
        false
    }

    /// Whether some live grant answers the check, with no project and no
    /// scope filter.
    pub fn has_permission(&self, permission: &Permission, now_ms: i64) -> (r: bool)
        ensures
            r == exists|k: int|
                0 <= k < self.granted_entries().len() && entry_grants(
                    self.granted_entries()[k],
                    *permission,
                    None,
                    None,
                    now_ms,
                ),
    {
        self.has_permission_with_context(permission, None, None, now_ms)
    }

    /// Revokes grants of a permission: all of them, or — limited to a
    /// project — only the grants scoped to that project.  Returns whether
    /// anything was removed.
    pub fn revoke_permission(&mut self, permission: &Permission, project_id: Option<&String>) -> (r:
        bool)
        ensures
            final(self).granted_entries() == surviving_grants(
                old(self).granted_entries(),
                *permission,
                opt_view(project_id),
            ),
            r == (final(self).granted_entries().len() < old(self).granted_entries().len()),
            final(self).logs() == old(self).logs(),
            final(self).parano() == old(self).parano(),
    {
        let n = self.granted.len();
        let mut kept: Vec<PermissionEntry> = Vec::new();
        let mut k: usize = 0;
        proof {
            assert(surviving_grants(
                old(self).granted_entries().take(0),
                *permission,
                opt_view(project_id),
            ) =~= Seq::<PermissionEntry>::empty());
        }
        while k < n
            invariant
                k <= n,
                n == old(self).granted_entries().len(),
                self.granted@ == old(self).granted_entries(),
                self.audit_logs@ == old(self).logs(),
                self.parano_mode == old(self).parano(),
                kept@ == surviving_grants(
                    old(self).granted_entries().take(k as int),
                    *permission,
                    opt_view(project_id),
                ),
            decreases n - k,
        {
            let e = &self.granted[k];
            let remove = match project_id {
                Some(pid) => match &e.scope {
                    PermissionScope::Project { project_id: epid } => e.permission == *permission
                        && *epid == *pid,
                    _ => false,
                },
                None => e.permission == *permission,
            };
            if !remove {
                kept.push(clone_entry(e));
            }
            proof {
                let s = old(self).granted_entries();
                let prefix1 = s.take(k as int + 1);
                assert(prefix1.drop_last() =~= s.take(k as int));
                assert(prefix1.last() == s[k as int]);
                assert(remove == revoke_removes(s[k as int], *permission, opt_view(project_id)));
            }
            k = k + 1;
        }
        proof {
            assert(old(self).granted_entries().take(n as int) =~= old(self).granted_entries());
            lemma_surviving_grants_len(
                old(self).granted_entries(),
                *permission,
                opt_view(project_id),
            );
        }
        let removed = kept.len() < self.granted.len();
        self.granted = kept;
        removed
    }

    /// Removes every expired grant; returns how many went.
    pub fn cleanup_expired_permissions(&mut self, now_ms: i64) -> (r: usize)
        ensures
            final(self).granted_entries() == live_grants(old(self).granted_entries(), now_ms),
            r == old(self).granted_entries().len() - final(self).granted_entries().len(),
            final(self).logs() == old(self).logs(),
            final(self).parano() == old(self).parano(),
    {
        let n = self.granted.len();
        let mut kept: Vec<PermissionEntry> = Vec::new();
        let mut k: usize = 0;
        proof {
            assert(live_grants(old(self).granted_entries().take(0), now_ms) =~= Seq::<
                PermissionEntry,
            >::empty());
        }
        while k < n
            invariant
                k <= n,
                n == old(self).granted_entries().len(),
                self.granted@ == old(self).granted_entries(),
                self.audit_logs@ == old(self).logs(),
                self.parano_mode == old(self).parano(),
                kept@ == live_grants(old(self).granted_entries().take(k as int), now_ms),
            decreases n - k,
        {
            let e = &self.granted[k];
            let live = match e.expires_at_ms {
                Some(t) => now_ms <= t,
                None => true,
            };
            if live {
                kept.push(clone_entry(e));
            }
            proof {
                let s = old(self).granted_entries();
                let prefix1 = s.take(k as int + 1);
                assert(prefix1.drop_last() =~= s.take(k as int));
                assert(prefix1.last() == s[k as int]);
                assert(live == entry_live(s[k as int], now_ms));
            }
            k = k + 1;
        }
        proof {
            assert(old(self).granted_entries().take(n as int) =~= old(self).granted_entries());
            lemma_live_grants_len(old(self).granted_entries(), now_ms);
        }
        let removed = self.granted.len() - kept.len();
        self.granted = kept;
        removed
    }

    /// The audit log, copied record by record.
    pub fn get_audit_logs(&self) -> (r: Vec<PermissionLog>)
        ensures
            r@ == self.logs(),
    {
        let n = self.audit_logs.len();
        let mut out: Vec<PermissionLog> = Vec::new();
        let mut k: usize = 0;
        while k < n
            invariant
                k <= n,
                n == self.logs().len(),
                out@.len() == k,
                forall|j: int| 0 <= j < k ==> out@[j] == self.logs()[j],
            decreases n - k,
        {
            out.push(clone_log(&self.audit_logs[k]));
            k = k + 1;
        }
        proof {
            assert(out@ =~= self.logs());
        }
        out
    }

    /// Empties the audit log.
    pub fn clear_audit_logs(&mut self)
        ensures
            final(self).logs().len() == 0,
            final(self).granted_entries() == old(self).granted_entries(),
            final(self).parano() == old(self).parano(),
    {
        self.audit_logs = Vec::new();
    }
}

/// The message given to a caller whose permission check failed.
pub open spec fn missing_permission_message(
    permission: Permission,
    context: Seq<char>,
    project_id: Option<Seq<char>>,
) -> Seq<char> {
    "Permission "@ + permission_name(permission) + " is required for: "@ + context + match project_id {
        Some(pid) => " (project: "@ + pid + ")"@,
        None => Seq::<char>::empty(),
    }
}

/// Whether some grant in a table answers a check (no scope filter).
pub open spec fn check_grants(
    s: Seq<PermissionEntry>,
    permission: Permission,
    project_id: Option<Seq<char>>,
    now_ms: i64,
) -> bool {
    exists|k: int| 0 <= k < s.len() && entry_grants(s[k], permission, project_id, None, now_ms)
}

impl PermissionManager {
    /// Checks a permission under an optional project and, in parano mode,
    /// consumes the matching grants: expired grants are swept first, a
    /// missing permission is reported with an exact message, and a
    /// successful parano-mode check revokes the grants it used and logs the
    /// consumption.
    pub fn check_and_consume_permission_with_context(
        &mut self,
        permission: &Permission,
        context: &str,
        project_id: Option<&String>,
        now_ms: i64,
    ) -> (r: Result<(), String>)
        ensures
            r is Ok == check_grants(
                live_grants(old(self).granted_entries(), now_ms),
                *permission,
                opt_view(project_id),
                now_ms,
            ),
            r matches Err(e) ==> e@ == missing_permission_message(
                *permission,
                context@,
                opt_view(project_id),
            ) && final(self).granted_entries() == live_grants(
                old(self).granted_entries(),
                now_ms,
            ) && final(self).logs() == old(self).logs(),
            r is Ok && !old(self).parano() ==> final(self).granted_entries() == live_grants(
                old(self).granted_entries(),
                now_ms,
            ) && final(self).logs() == old(self).logs(),
            r is Ok && old(self).parano() ==> final(self).granted_entries() == surviving_grants(
                live_grants(old(self).granted_entries(), now_ms),
                *permission,
                opt_view(project_id),
            ) && final(self).logs().len() == old(self).logs().len() + 1 && final(self).logs().drop_last() == old(self).logs() && ({
                let log = final(self).logs().last();
                &&& log.timestamp_ms == now_ms
                &&& log.permission == *permission
                &&& !log.granted
                &&& log.context@ == context@
                &&& log.user_action@ == "Permission consumed (parano mode)"@
                &&& match opt_view(project_id) {
                    Some(pid) => (log.scope matches Some(sc) && sc@ == "project:"@ + pid) && (
                    log.project_id matches Some(p) && p@ == pid),
                    None => log.scope is None && log.project_id is None,
                }
            }),
            final(self).parano() == old(self).parano(),
    {
        self.cleanup_expired_permissions(now_ms);
        if !self.has_permission_with_context(permission, project_id, None, now_ms) {
            let mut e = "Permission ".to_owned();
            let name = permission_label(permission);
            e.append(name.as_str());
            e.append(" is required for: ");
            e.append(context);
            match project_id {
                Some(pid) => {
                    e.append(" (project: ");
                    e.append(pid.as_str());
                    e.append(")");
                },
                None => {},
            }
            return Err(e);
        }
        if self.parano_mode {
            self.revoke_permission(permission, project_id);
            let scope_str: Option<String> = match project_id {
                Some(pid) => {
                    let mut sc = "project:".to_owned();
                    sc.append(pid.as_str());
                    Some(sc)
                },
                None => None,
            };
            let pid_owned: Option<String> = match project_id {
                Some(pid) => Some(pid.clone()),
                None => None,
            };
            let log = PermissionLog {
                timestamp_ms: now_ms,
                permission: *permission,
                granted: false,
                context: context.to_owned(),
                user_action: "Permission consumed (parano mode)".to_owned(),
                scope: scope_str,
                project_id: pid_owned,
            };
            self.audit_logs.push(log);
            proof {
                assert(final(self).logs().drop_last() =~= old(self).logs());
            }
        }
        Ok(())
    }

    /// Checks a permission with no project context and, in parano mode,
    /// consumes the matching grants.
    pub fn check_and_consume_permission(
        &mut self,
        permission: &Permission,
        context: &str,
        now_ms: i64,
    ) -> (r: Result<(), String>)
        ensures
            r is Ok == check_grants(
                live_grants(old(self).granted_entries(), now_ms),
                *permission,
                None,
                now_ms,
            ),
            r matches Err(e) ==> e@ == missing_permission_message(*permission, context@, None),
            final(self).parano() == old(self).parano(),
    {
        self.check_and_consume_permission_with_context(permission, context, None, now_ms)
    }
}

/// Parses a scope keyword: "temporary" takes an optional duration in
/// minutes (an hour when absent), "project" needs a project id, and any
/// keyword other than "temporary", "session" and "project" means the global
/// scope.
pub fn parse_scope(scope: &str, duration_minutes: Option<i64>, project_id: Option<String>) -> (r:
    Result<PermissionScope, String>)
    ensures
        scope@ == "temporary"@ ==> r == Ok::<PermissionScope, String>(
            (PermissionScope::Temporary {
                duration_minutes: match duration_minutes {
                    Some(d) => d,
                    None => 60,
                },
            }),
        ),
        scope@ == "session"@ ==> r == Ok::<PermissionScope, String>(PermissionScope::Session),
        scope@ == "project"@ ==> match project_id {
            Some(pid) => r == Ok::<PermissionScope, String>(
                (PermissionScope::Project { project_id: pid }),
            ),
            None => r matches Err(e) && e@ == "project_id required for project scope"@,
        },
        scope@ != "temporary"@ && scope@ != "session"@ && scope@ != "project"@ ==> r == Ok::<
            PermissionScope,
            String,
        >(PermissionScope::Global),
{
    proof {
        reveal_strlit("temporary");
        reveal_strlit("session");
        reveal_strlit("project");
        assert("temporary"@.len() == 9);
        assert("session"@.len() == 7);
        assert("project"@.len() == 7);
        assert("session"@[0] == 's');
        assert("project"@[0] == 'p');
        assert("session"@ != "project"@);
    }
    if text::str_eq(scope, "temporary") {
        let d = match duration_minutes {
            Some(d) => d,
            None => 60,
        };
        Ok(PermissionScope::Temporary { duration_minutes: d })
    } else if text::str_eq(scope, "session") {
        Ok(PermissionScope::Session)
    } else if text::str_eq(scope, "project") {
        match project_id {
            Some(pid) => Ok(PermissionScope::Project { project_id: pid }),
            None => Err("project_id required for project scope".to_owned()),
        }
    } else {
        Ok(PermissionScope::Global)
    }
}

/// Copies a grant, field by field.
fn clone_entry(e: &PermissionEntry) -> (r: PermissionEntry)
    ensures
        r == *e,
{
    PermissionEntry {
        permission: e.permission,
        scope: clone_scope(&e.scope),
        granted_at_ms: e.granted_at_ms,
        expires_at_ms: e.expires_at_ms,
        context: e.context.clone(),
        project_id: clone_opt_string(&e.project_id),
    }
}

} // verus!
