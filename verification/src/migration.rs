//! The move of existing data to the multi-tenant schema.
//!
//! The migration runs against the store in three steps: a legacy default
//! organization for users without an app, a `Default` organization for each
//! registered client that has none, and the legacy app and org ids for every
//! user without them. It is idempotent: a step that finds its work done
//! does nothing. The store reads and writes are the caller's; the decisions,
//! the records written and the tally are made here.
use vstd::prelude::*;

verus! {

broadcast use vstd::string::group_string_axioms;

/// Placeholder app id of users from before multi-tenancy (the nil UUID).
pub const LEGACY_APP_ID: &'static str = "00000000-0000-0000-0000-000000000000";

/// Placeholder org id of users from before multi-tenancy (the nil UUID).
pub const LEGACY_ORG_ID: &'static str = "00000000-0000-0000-0000-000000000000";

/// What a migration run did.
#[derive(Clone, Copy, Debug, PartialEq, Eq)]
pub struct MigrationResult {
    pub organizations_created: u64,
    pub users_updated: u64,
    pub clients_processed: u64,
}

/// An organization that the migration creates.
#[derive(Clone, Debug, PartialEq, Eq)]
pub struct OrganizationSeed {
    pub id: String,
    pub org_id: String,
    pub app_id: String,
    pub name: String,
    pub enabled: bool,
}

impl MigrationResult {
    /// The tally before any step.
    pub fn new() -> (r: Self)
        ensures
            r.organizations_created == 0,
            r.users_updated == 0,
            r.clients_processed == 0,
    {
        MigrationResult { organizations_created: 0, users_updated: 0, clients_processed: 0 }
    }

    /// Counts an organization written by the migration.
    pub fn note_organization_created(&mut self)
        requires
            old(self).organizations_created < u64::MAX,
        ensures
            final(self).organizations_created == old(self).organizations_created + 1,
            final(self).users_updated == old(self).users_updated,
            final(self).clients_processed == old(self).clients_processed,
    {
        self.organizations_created = self.organizations_created + 1;
    }

    /// Counts a registered client looked at.
    pub fn note_client_processed(&mut self)
        requires
            old(self).clients_processed < u64::MAX,
        ensures
            final(self).clients_processed == old(self).clients_processed + 1,
            final(self).organizations_created == old(self).organizations_created,
            final(self).users_updated == old(self).users_updated,
    {
        self.clients_processed = self.clients_processed + 1;
    }

    /// Records how many users the last step changed.
    pub fn note_users_updated(&mut self, modified: u64)
        ensures
            final(self).users_updated == modified,
            final(self).organizations_created == old(self).organizations_created,
            final(self).clients_processed == old(self).clients_processed,
    {
        self.users_updated = modified;
    }
}

/// The legacy default organization, if it does not exist yet: it carries the
/// legacy ids and the name `Legacy Default`.
pub fn legacy_organization(exists: bool) -> (r: Option<OrganizationSeed>)
    ensures
        exists <==> r is None,
        r matches Some(o) ==> o.id@ == LEGACY_ORG_ID@ && o.org_id@ == LEGACY_ORG_ID@ && o.app_id@
            == LEGACY_APP_ID@ && o.name@ == "Legacy Default"@ && o.enabled,
{
    if exists {
        None
    } else {
        Some(
            OrganizationSeed {
                id: LEGACY_ORG_ID.to_owned(),
                org_id: LEGACY_ORG_ID.to_owned(),
                app_id: LEGACY_APP_ID.to_owned(),
                name: "Legacy Default".to_owned(),
                enabled: true,
            },
        )
    }
}

/// The `Default` organization of a client, with the fresh id `org_id`, if
/// the client has none yet.
pub fn default_organization(client_id: &str, has_default: bool, org_id: &str) -> (r: Option<
    OrganizationSeed,
>)
    ensures
        has_default <==> r is None,
        r matches Some(o) ==> o.id@ == org_id@ && o.org_id@ == org_id@ && o.app_id@ == client_id@
            && o.name@ == "Default"@ && o.enabled,
{
    if has_default {
        None
    } else {
        Some(
            OrganizationSeed {
                id: org_id.to_owned(),
                org_id: org_id.to_owned(),
                app_id: client_id.to_owned(),
                name: "Default".to_owned(),
                enabled: true,
            },
        )
    }
}

/// Where a run of the migration stands: what it waits for from the store.
#[derive(Clone, Copy, Debug, PartialEq, Eq, Structural)]
pub enum MigrationPhase {
    /// Whether the legacy organization exists.
    AwaitLegacy,
    /// The insertion of the legacy organization.
    AwaitLegacyInsert,
    /// The next registered client, or the end of them.
    AwaitClient,
    /// The insertion of a client's `Default` organization.
    AwaitClientInsert,
    /// The count of users given the legacy ids.
    AwaitUsers,
    /// Nothing: the run is over.
    Done,
}

/// A run of the migration: its phase and its tally so far.
#[derive(Clone, Debug, PartialEq, Eq)]
pub struct MigrationRun {
    pub phase: MigrationPhase,
    pub result: MigrationResult,
}

/// What the store answered to the last action.
#[derive(Clone, Debug, PartialEq, Eq)]
pub enum MigrationEvent {
    /// Whether the legacy organization exists.
    LegacyOrg { exists: bool },
    /// The organization asked for was inserted.
    Inserted,
    /// The next registered client: whether it has its `Default`
    /// organization, and a fresh id for one.
    Client { client_id: String, has_default: bool, fresh_org_id: String },
    /// There are no more clients.
    NoMoreClients,
    /// The users without an app or org id that were given the legacy ones.
    UsersUpdated { modified: u64 },
}

/// What the caller does next against the store.
#[derive(Clone, Debug, PartialEq, Eq)]
pub enum MigrationAction {
    /// Look for the legacy organization.
    FindLegacyOrg,
    /// Insert this organization.
    CreateOrg(OrganizationSeed),
    /// Fetch the next registered client.
    NextClient,
    /// Give every user without an app or org id the legacy ones.
    UpdateUsers,
    /// The run is over, with this tally.
    Finish(MigrationResult),
}

/// Whether `e` answers what a run in phase `p` waits for.
pub open spec fn event_fits(p: MigrationPhase, e: MigrationEvent) -> bool {
    match p {
        MigrationPhase::AwaitLegacy => e is LegacyOrg,
        MigrationPhase::AwaitLegacyInsert => e is Inserted,
        MigrationPhase::AwaitClient => e is Client || e is NoMoreClients,
        MigrationPhase::AwaitClientInsert => e is Inserted,
        MigrationPhase::AwaitUsers => e is UsersUpdated,
        MigrationPhase::Done => false,
    }
}

/// The tally can take one more organization and one more client.
pub open spec fn tally_has_room(r: MigrationResult) -> bool {
    r.organizations_created < u64::MAX && r.clients_processed < u64::MAX
}

/// The seed `o` is the legacy organization.
pub open spec fn is_legacy_seed(o: OrganizationSeed) -> bool {
    o.id@ == LEGACY_ORG_ID@ && o.org_id@ == LEGACY_ORG_ID@ && o.app_id@ == LEGACY_APP_ID@
        && o.name@ == "Legacy Default"@ && o.enabled
}

/// The seed `o` is the `Default` organization of `client_id` with id `org_id`.
pub open spec fn is_default_seed(o: OrganizationSeed, client_id: Seq<char>, org_id: Seq<char>) -> bool {
    o.id@ == org_id && o.org_id@ == org_id && o.app_id@ == client_id && o.name@ == "Default"@
        && o.enabled
}

/// The phase, and the tally counts, that a run in `run` reaches on `e`.
pub open spec fn next_phase(run: MigrationRun, e: MigrationEvent) -> (MigrationPhase, int, int, int) {
    let r = run.result;
    let (o, u, c) = (r.organizations_created as int, r.users_updated as int, r.clients_processed as int);
    match e {
        MigrationEvent::LegacyOrg { exists } => if exists {
            (MigrationPhase::AwaitClient, o, u, c)
        } else {
            (MigrationPhase::AwaitLegacyInsert, o, u, c)
        },
        MigrationEvent::Inserted => (MigrationPhase::AwaitClient, o + 1, u, c),
        MigrationEvent::Client { has_default, .. } => if has_default {
            (MigrationPhase::AwaitClient, o, u, c + 1)
        } else {
            (MigrationPhase::AwaitClientInsert, o, u, c + 1)
        },
        MigrationEvent::NoMoreClients => (MigrationPhase::AwaitUsers, o, u, c),
        MigrationEvent::UsersUpdated { modified } => (MigrationPhase::Done, o, modified as int, c),
    }
}

/// The run that `run` becomes on `e`.
pub open spec fn run_after(run: MigrationRun, e: MigrationEvent) -> MigrationRun {
    let (p, o, u, c) = next_phase(run, e);
    MigrationRun {
        phase: p,
        result: MigrationResult {
            organizations_created: o as u64,
            users_updated: u as u64,
            clients_processed: c as u64,
        },
    }
}

/// The action that follows `e`, given the run it leads to.
pub open spec fn action_ok(e: MigrationEvent, next: MigrationRun, a: MigrationAction) -> bool {
    match e {
        MigrationEvent::LegacyOrg { exists } => if exists {
            a == MigrationAction::NextClient
        } else {
            a matches MigrationAction::CreateOrg(o) && is_legacy_seed(o)
        },
        MigrationEvent::Inserted => a == MigrationAction::NextClient,
        MigrationEvent::Client { client_id, has_default, fresh_org_id } => if has_default {
            a == MigrationAction::NextClient
        } else {
            a matches MigrationAction::CreateOrg(o) && is_default_seed(o, client_id@, fresh_org_id@)
        },
        MigrationEvent::NoMoreClients => a == MigrationAction::UpdateUsers,
        MigrationEvent::UsersUpdated { .. } => a == MigrationAction::Finish(next.result),
    }
}

impl MigrationRun {
    /// A run about to start, and its first action: look for the legacy
    /// organization.
    pub fn start() -> (r: (MigrationRun, MigrationAction))
        ensures
            r.0.phase == MigrationPhase::AwaitLegacy,
            r.0.result == (MigrationResult {
                organizations_created: 0,
                users_updated: 0,
                clients_processed: 0,
            }),
            r.1 == MigrationAction::FindLegacyOrg,
    {
        (MigrationRun { phase: MigrationPhase::AwaitLegacy, result: MigrationResult::new() }, MigrationAction::FindLegacyOrg)
    }

    /// Whether `e` answers what the run waits for.
    pub fn fits(&self, e: &MigrationEvent) -> (b: bool)
        ensures
            b == event_fits(self.phase, *e),
    {
        match self.phase {
            MigrationPhase::AwaitLegacy => matches!(e, MigrationEvent::LegacyOrg { .. }),
            MigrationPhase::AwaitLegacyInsert => matches!(e, MigrationEvent::Inserted),
            MigrationPhase::AwaitClient => matches!(e, MigrationEvent::Client { .. }) || matches!(e, MigrationEvent::NoMoreClients),
            MigrationPhase::AwaitClientInsert => matches!(e, MigrationEvent::Inserted),
            MigrationPhase::AwaitUsers => matches!(e, MigrationEvent::UsersUpdated { .. }),
            MigrationPhase::Done => false,
        }
    }

    /// One step of the migration: the store's answer `e` to the last action
    /// moves the run on, and gives the next action. The legacy organization
    /// and each client's `Default` organization are created only when
    /// missing; each client is counted; the last step records the users
    /// updated and finishes with the tally.
    pub fn step(&mut self, e: MigrationEvent) -> (a: MigrationAction)
        requires
            event_fits(old(self).phase, e),
            tally_has_room(old(self).result),
        ensures
            *final(self) == run_after(*old(self), e),
            action_ok(e, *final(self), a),
    {
        match e {
            MigrationEvent::LegacyOrg { exists } => {
                match legacy_organization(exists) {
                    Some(o) => {
                        self.phase = MigrationPhase::AwaitLegacyInsert;
                        MigrationAction::CreateOrg(o)
                    },
                    None => {
                        self.phase = MigrationPhase::AwaitClient;
                        MigrationAction::NextClient
                    },
                }
            },
            MigrationEvent::Inserted => {
                self.result.note_organization_created();
                self.phase = MigrationPhase::AwaitClient;
                MigrationAction::NextClient
            },
            MigrationEvent::Client { client_id, has_default, fresh_org_id } => {
                self.result.note_client_processed();
                match default_organization(client_id.as_str(), has_default, fresh_org_id.as_str()) {
                    Some(o) => {
                        self.phase = MigrationPhase::AwaitClientInsert;
                        MigrationAction::CreateOrg(o)
                    },
                    None => {
                        self.phase = MigrationPhase::AwaitClient;
                        MigrationAction::NextClient
                    },
                }
            },
            MigrationEvent::NoMoreClients => {
                self.phase = MigrationPhase::AwaitUsers;
                MigrationAction::UpdateUsers
            },
            MigrationEvent::UsersUpdated { modified } => {
                self.result.note_users_updated(modified);
                self.phase = MigrationPhase::Done;
                MigrationAction::Finish(self.result)
            },
        }
    }
}

/// An answer that finds the migration's work already done: the legacy
/// organization exists, or the client has its `Default` organization.
pub open spec fn finds_work_done(e: MigrationEvent) -> bool {
    match e {
        MigrationEvent::LegacyOrg { exists } => exists,
        MigrationEvent::Client { has_default, .. } => has_default,
        _ => true,
    }
}

/// The run that `run` becomes on the answers `events`, taken in order while
/// each fits what the run waits for.
pub open spec fn run_through(run: MigrationRun, events: Seq<MigrationEvent>) -> MigrationRun
    decreases events.len(),
{
    if events.len() == 0 || !event_fits(run.phase, events[0]) {
        run
    } else {
        run_through(run_after(run, events[0]), events.drop_first())
    }
}

/// The migration is idempotent: against a store where its work is done
/// (every answer finds the legacy organization and each client's `Default`
/// organization present) a run creates no organization, whatever the
/// answers and however many clients there are.
pub proof fn law_migration_idempotent(run: MigrationRun, events: Seq<MigrationEvent>)
    requires
        run.phase != MigrationPhase::AwaitLegacyInsert,
        run.phase != MigrationPhase::AwaitClientInsert,
        forall|i: int| 0 <= i < events.len() ==> finds_work_done(#[trigger] events[i]),
    ensures
        run_through(run, events).result.organizations_created == run.result.organizations_created,
    decreases events.len(),
{
    if events.len() > 0 && event_fits(run.phase, events[0]) {
        let rest = events.drop_first();
        assert(finds_work_done(events[0]));
        assert forall|i: int| 0 <= i < rest.len() implies finds_work_done(#[trigger] rest[i]) by {
            assert(rest[i] == events[i + 1]);
        }
        law_migration_idempotent(run_after(run, events[0]), rest);
    }
}

/// The migration is needed while some user lacks an app or org id.
pub fn is_migration_needed(users_without_tenant: u64) -> (b: bool)
    ensures
        b == (users_without_tenant > 0),
{
    users_without_tenant > 0
}

} // verus!
