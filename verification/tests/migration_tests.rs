use auth_service::digest::sha256_hex;
use auth_service::ids::{id_text, new_id, parse_id, request_id};
use auth_service::invitation::new_invitation_token;
use auth_service::migration::{
    MigrationAction, MigrationEvent, MigrationPhase, MigrationResult, MigrationRun, LEGACY_APP_ID,
    LEGACY_ORG_ID,
};
use uuid::Uuid;

#[test]
fn test_legacy_ids_are_valid_uuids() {
    // Ensure legacy IDs are valid UUIDs (all zeros)
    assert!(Uuid::parse_str(LEGACY_APP_ID).is_ok());
    assert!(Uuid::parse_str(LEGACY_ORG_ID).is_ok());
}

#[test]
fn id_text_is_hyphenated_lowercase() {
    assert_eq!(
        id_text(0xa1a2a3a4b1b2c1c2d1d2d3d4d5d6d7d8),
        "a1a2a3a4-b1b2-c1c2-d1d2-d3d4d5d6d7d8"
    );
    assert_eq!(id_text(0), "00000000-0000-0000-0000-000000000000");
}

#[test]
fn new_ids_are_random_version_four() {
    let a = new_id();
    let b = new_id();
    assert_ne!(a, b);
    for v in [a, b] {
        assert_eq!((v >> 76) & 0xf, 4);
        assert_eq!((v >> 62) & 0x3, 2);
        assert_eq!(parse_id(&id_text(v)), Some(v));
    }
}

#[test]
fn request_id_keeps_the_callers_id() {
    assert_eq!(request_id(Some("req-42")), "req-42");
    let fresh = request_id(None);
    assert_eq!(fresh.len(), 36);
    assert!(parse_id(&fresh).is_some());
}

#[test]
fn invitation_token_is_stored_by_digest() {
    let (token, digest) = new_invitation_token();
    assert!(parse_id(&token).is_some());
    assert_eq!(digest, sha256_hex(&token));
    assert_eq!(digest.len(), 64);
    assert_ne!(digest, token);
}

fn client(id: &str, has_default: bool, fresh: &str) -> MigrationEvent {
    MigrationEvent::Client {
        client_id: id.to_string(),
        has_default,
        fresh_org_id: fresh.to_string(),
    }
}

#[test]
fn migration_creates_missing_organizations() {
    let (mut run, first) = MigrationRun::start();
    assert_eq!(first, MigrationAction::FindLegacyOrg);

    match run.step(MigrationEvent::LegacyOrg { exists: false }) {
        MigrationAction::CreateOrg(o) => {
            assert_eq!(o.id, LEGACY_ORG_ID);
            assert_eq!(o.org_id, LEGACY_ORG_ID);
            assert_eq!(o.app_id, LEGACY_APP_ID);
            assert_eq!(o.name, "Legacy Default");
            assert!(o.enabled);
        }
        other => panic!("unexpected: {:?}", other),
    }
    assert_eq!(run.step(MigrationEvent::Inserted), MigrationAction::NextClient);

    assert!(run.fits(&client("app-1", true, "org-x")));
    assert_eq!(run.step(client("app-1", true, "org-x")), MigrationAction::NextClient);
    match run.step(client("app-2", false, "org-y")) {
        MigrationAction::CreateOrg(o) => {
            assert_eq!(o.org_id, "org-y");
            assert_eq!(o.app_id, "app-2");
            assert_eq!(o.name, "Default");
        }
        other => panic!("unexpected: {:?}", other),
    }
    assert!(!run.fits(&MigrationEvent::NoMoreClients));
    assert_eq!(run.step(MigrationEvent::Inserted), MigrationAction::NextClient);
    assert_eq!(run.step(MigrationEvent::NoMoreClients), MigrationAction::UpdateUsers);
    let done = run.step(MigrationEvent::UsersUpdated { modified: 5 });
    let expected = MigrationResult { organizations_created: 2, users_updated: 5, clients_processed: 2 };
    assert_eq!(done, MigrationAction::Finish(expected));
    assert_eq!(run.phase, MigrationPhase::Done);
    assert!(!run.fits(&MigrationEvent::Inserted));
}

#[test]
fn migration_rerun_creates_nothing() {
    let (mut run, _) = MigrationRun::start();
    assert_eq!(run.step(MigrationEvent::LegacyOrg { exists: true }), MigrationAction::NextClient);
    assert_eq!(run.step(client("app-1", true, "a")), MigrationAction::NextClient);
    assert_eq!(run.step(client("app-2", true, "b")), MigrationAction::NextClient);
    assert_eq!(run.step(MigrationEvent::NoMoreClients), MigrationAction::UpdateUsers);
    let done = run.step(MigrationEvent::UsersUpdated { modified: 0 });
    let expected = MigrationResult { organizations_created: 0, users_updated: 0, clients_processed: 2 };
    assert_eq!(done, MigrationAction::Finish(expected));
}
