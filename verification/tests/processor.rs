use content_ledger::checksum::{fingerprint, Stamp};
use content_ledger::domain::{Action, LedgerCommand, LedgerEvent, Revision};
use content_ledger::lmdb_store::{create_context, LmdbContext, StoreError};
use content_ledger::processor::{apply, decide, process_command, FreshIds, RejectReason};

const T1: &str = "2021-03-04T05:06:07+00:00";
const T2: &str = "2021-03-05T05:06:07+00:00";
const ONE: &str = "{\"title\":\"one\"}";
const TWO: &str = "{\"title\":\"two\"}";

fn ids(event_id: &str, id: &str, version: &str) -> FreshIds {
    FreshIds {
        event_id: event_id.to_string(),
        revision: Revision { id: id.to_string(), version: version.to_string() },
    }
}

fn at(id: &str, version: &str) -> Revision {
    Revision { id: id.to_string(), version: version.to_string() }
}

fn create() -> Action {
    Action::CREATE {
        category: "post".to_string(),
        content_type: "article".to_string(),
        bucket: "main".to_string(),
        env: "prod".to_string(),
    }
}

fn by(user: Option<&str>, action: Action, payload: Option<&str>) -> LedgerCommand<String> {
    LedgerCommand {
        tracking_id: "track".to_string(),
        action,
        payload: payload.map(|p| p.to_string()),
        user_id: user.map(|u| u.to_string()),
    }
}

fn store_with_document() -> LmdbContext {
    let mut store = create_context().unwrap();
    let done = apply(&mut store, &by(Some("alice"), create(), Some(ONE)), T1, &ids("e1", "doc", "v1"));
    assert!(done.is_ok());
    store
}

fn sealed_store() -> LmdbContext {
    let mut store = store_with_document();
    let seal = by(Some("carol"), Action::SEAL(at("doc", "v1")), Some(ONE));
    assert!(apply(&mut store, &seal, T2, &ids("e2", "x", "v2")).is_ok());
    store
}

fn hash(payload: &str) -> Option<String> {
    fingerprint(payload)
}

#[test]
fn create_fills_every_field_of_the_first_revision() {
    let mut store = create_context().unwrap();
    let event = apply(&mut store, &by(Some("alice"), create(), Some(ONE)), T1, &ids("e1", "doc", "v1"))
        .unwrap();
    assert_eq!(event.event_id, "e1");
    assert_eq!(event.payload, Some(ONE.to_string()));
    assert!(matches!(event.action, Action::CREATE { .. }));
    let sys = &event.sys;
    assert_eq!(sys.id, "doc");
    assert_eq!(sys.version, "v1");
    assert_eq!(sys.category, "post");
    assert_eq!(sys.content_type, "article");
    assert_eq!(sys.bucket, "main");
    assert_eq!(sys.env, "prod");
    assert_eq!(sys.previous_version, None);
    assert_eq!(sys.created_at, Some(T1.to_string()));
    assert_eq!(sys.updated_at, Some(T1.to_string()));
    assert_eq!(sys.first_published_at, Some(T1.to_string()));
    assert_eq!(sys.created_by, "alice");
    assert_eq!(sys.updated_by, "alice");
    assert_eq!(sys.published_at, None);
    assert_eq!(sys.published_by, None);
    assert_eq!(sys.published_version, None);
    assert_eq!(sys.published_count, 0);
    assert_eq!(sys.sealed_at, None);
    assert_eq!(sys.sealed_by, None);
    assert_eq!(
        sys.payload_checksum,
        Some("d18cf48fd28c7dd4929d91f1d76220d95bf206baf427783184a80eba6ee821f3".to_string())
    );
}

#[test]
fn create_without_user_records_empty_name() {
    let mut store = create_context().unwrap();
    let event = apply(&mut store, &by(None, create(), None), T1, &ids("e1", "doc", "v1")).unwrap();
    assert_eq!(event.sys.created_by, "");
    assert_eq!(event.sys.updated_by, "");
    assert_eq!(event.sys.payload_checksum, None);
    assert_eq!(event.payload, None);
}

#[test]
fn create_under_taken_id_is_rejected() {
    let mut store = store_with_document();
    let again = apply(&mut store, &by(Some("bob"), create(), Some(TWO)), T2, &ids("e2", "doc", "v2"));
    assert_eq!(again.unwrap_err(), RejectReason::AlreadyExists);
    assert_eq!(store.get("doc"), Ok("v1".to_string()));
    assert!(store.get_by_version("v2").is_none());
}

#[test]
fn update_carries_fields_forward_and_links_to_previous() {
    let mut store = store_with_document();
    let update = by(Some("bob"), Action::UPDATE(at("doc", "v1")), Some(TWO));
    let event = apply(&mut store, &update, T2, &ids("e2", "ignored", "v2")).unwrap();
    let sys = &event.sys;
    assert_eq!(sys.id, "doc");
    assert_eq!(sys.version, "v2");
    assert_eq!(sys.previous_version, Some("v1".to_string()));
    assert_eq!(sys.category, "post");
    assert_eq!(sys.content_type, "article");
    assert_eq!(sys.bucket, "main");
    assert_eq!(sys.env, "prod");
    assert_eq!(sys.created_at, Some(T1.to_string()));
    assert_eq!(sys.created_by, "alice");
    assert_eq!(sys.first_published_at, Some(T1.to_string()));
    assert_eq!(sys.updated_at, Some(T2.to_string()));
    assert_eq!(sys.updated_by, "bob");
    assert_eq!(sys.sealed_at, None);
    assert_eq!(sys.payload_checksum, hash(TWO));
    assert_eq!(event.payload, Some(TWO.to_string()));
    assert_eq!(store.get_latest("doc").unwrap().sys.version, "v2");
    assert!(store.get_latest("ignored").is_none());
}

#[test]
fn accepted_command_becomes_latest_and_names_prior_latest() {
    let mut store = store_with_document();
    let before = store.get_latest("doc").unwrap().sys.version;
    let update = by(Some("bob"), Action::UPDATE(at("doc", "v1")), Some(TWO));
    let event = apply(&mut store, &update, T2, &ids("e2", "x", "v2")).unwrap();
    let latest = store.get_latest("doc").unwrap();
    assert_eq!(latest.sys.version, event.sys.version);
    assert_eq!(latest.sys.previous_version, Some(before));
}

#[test]
fn update_of_unknown_document_is_not_found() {
    let mut store = store_with_document();
    let update = by(Some("bob"), Action::UPDATE(at("nothing", "v1")), Some(TWO));
    let done = apply(&mut store, &update, T2, &ids("e2", "x", "v2"));
    assert_eq!(done.unwrap_err(), RejectReason::NotFound);
}

#[test]
fn stale_update_delete_and_seal_are_lock_failures() {
    let mut store = store_with_document();
    for action in [
        Action::UPDATE(at("doc", "v0")),
        Action::DELETE(at("doc", "v0")),
        Action::SEAL(at("doc", "v0")),
    ] {
        let done = apply(&mut store, &by(Some("bob"), action, Some(TWO)), T2, &ids("e2", "x", "v2"));
        assert_eq!(done.unwrap_err(), RejectReason::OptimisticLockFailure);
        assert_eq!(store.get("doc"), Ok("v1".to_string()));
        assert!(store.get_by_version("v2").is_none());
    }
}

#[test]
fn stale_command_on_sealed_document_is_lock_failure_not_sealed() {
    let mut store = sealed_store();
    let update = by(Some("bob"), Action::UPDATE(at("doc", "v1")), Some(TWO));
    let done = apply(&mut store, &update, T2, &ids("e3", "x", "v3"));
    assert_eq!(done.unwrap_err(), RejectReason::OptimisticLockFailure);
}

#[test]
fn seal_marks_the_document() {
    let store = sealed_store();
    let latest = store.get_latest("doc").unwrap();
    assert_eq!(latest.sys.version, "v2");
    assert_eq!(latest.sys.sealed_at, Some(T2.to_string()));
    assert_eq!(latest.sys.sealed_by, Some("carol".to_string()));
    assert_eq!(latest.sys.updated_by, "carol");
    assert_eq!(latest.sys.previous_version, Some("v1".to_string()));
    assert_eq!(latest.sys.created_by, "alice");
}

#[test]
fn sealed_document_takes_no_update_delete_or_seal() {
    let mut store = sealed_store();
    for action in [
        Action::UPDATE(at("doc", "v2")),
        Action::DELETE(at("doc", "v2")),
        Action::SEAL(at("doc", "v2")),
    ] {
        let done = apply(&mut store, &by(Some("bob"), action, Some(TWO)), T2, &ids("e3", "x", "v3"));
        assert_eq!(done.unwrap_err(), RejectReason::DocumentSealed);
        assert_eq!(store.get("doc"), Ok("v2".to_string()));
    }
}

#[test]
fn delete_leaves_tombstone_without_payload() {
    let mut store = store_with_document();
    let delete = by(Some("bob"), Action::DELETE(at("doc", "v1")), Some(TWO));
    let event = apply(&mut store, &delete, T2, &ids("e2", "x", "v2")).unwrap();
    assert_eq!(event.payload, None);
    assert_eq!(event.sys.payload_checksum, None);
    assert_eq!(event.sys.previous_version, Some("v1".to_string()));
    assert_eq!(event.sys.updated_by, "bob");
    assert_eq!(store.get_by_version("v1").unwrap().payload, Some(ONE.to_string()));
    assert_eq!(store.get_previous("v2", 5).len(), 2);
}

#[test]
fn copy_starts_new_document_from_sealed_source() {
    let mut store = sealed_store();
    let copy = by(Some("dave"), Action::COPY(at("doc", "v2")), Some(ONE));
    let event = apply(&mut store, &copy, T2, &ids("e3", "copy", "v3")).unwrap();
    let sys = &event.sys;
    assert_eq!(sys.id, "copy");
    assert_eq!(sys.version, "v3");
    assert_eq!(sys.previous_version, Some("v2".to_string()));
    assert_eq!(sys.sealed_at, None);
    assert_eq!(sys.sealed_by, None);
    assert_eq!(sys.first_published_at, None);
    assert_eq!(sys.published_at, None);
    assert_eq!(sys.published_by, None);
    assert_eq!(sys.published_version, None);
    assert_eq!(sys.published_count, 0);
    assert_eq!(sys.category, "post");
    assert_eq!(sys.created_by, "alice");
    assert_eq!(sys.created_at, Some(T1.to_string()));
    assert_eq!(sys.updated_by, "dave");
    assert_eq!(sys.payload_checksum, hash(ONE));
    assert_eq!(store.get("copy"), Ok("v3".to_string()));
    assert_eq!(store.get("doc"), Ok("v2".to_string()));
    let walk: Vec<String> =
        store.get_previous("v3", 9).iter().map(|e| e.sys.version.clone()).collect();
    assert_eq!(walk, vec!["v3", "v2", "v1"]);
}

#[test]
fn copy_with_other_payload_is_checksum_mismatch() {
    let mut store = store_with_document();
    let copy = by(Some("dave"), Action::COPY(at("doc", "v1")), Some(TWO));
    let done = apply(&mut store, &copy, T2, &ids("e3", "copy", "v3"));
    assert_eq!(done.unwrap_err(), RejectReason::ChecksumMismatch);
    assert_eq!(store.get("copy"), Err(StoreError::NotFound));
    assert!(store.get_by_version("v3").is_none());
}

#[test]
fn copy_without_payload_of_source_with_payload_is_checksum_mismatch() {
    let mut store = store_with_document();
    let copy = by(Some("dave"), Action::COPY(at("doc", "v1")), None);
    let done = apply(&mut store, &copy, T2, &ids("e3", "copy", "v3"));
    assert_eq!(done.unwrap_err(), RejectReason::ChecksumMismatch);
}

#[test]
fn copy_of_unknown_version_is_not_found() {
    let mut store = store_with_document();
    let copy = by(Some("dave"), Action::COPY(at("doc", "v9")), Some(ONE));
    let done = apply(&mut store, &copy, T2, &ids("e3", "copy", "v3"));
    assert_eq!(done.unwrap_err(), RejectReason::NotFound);
}

#[test]
fn copy_that_names_wrong_document_is_id_mismatch() {
    let mut store = store_with_document();
    let copy = by(Some("dave"), Action::COPY(at("other", "v1")), Some(ONE));
    let done = apply(&mut store, &copy, T2, &ids("e3", "copy", "v3"));
    assert_eq!(done.unwrap_err(), RejectReason::IdMismatch);
}

#[test]
fn copy_under_taken_id_is_checked_against_what_stands_there() {
    let mut store = sealed_store();
    let stale = by(Some("dave"), Action::COPY(at("doc", "v1")), Some(ONE));
    assert_eq!(
        apply(&mut store, &stale, T2, &ids("e3", "doc", "v3")).unwrap_err(),
        RejectReason::OptimisticLockFailure
    );
    let sealed = by(Some("dave"), Action::COPY(at("doc", "v2")), Some(ONE));
    assert_eq!(
        apply(&mut store, &sealed, T2, &ids("e3", "doc", "v3")).unwrap_err(),
        RejectReason::DocumentSealed
    );
    let mut open = store_with_document();
    let other = by(Some("dave"), Action::COPY(at("elsewhere", "v1")), Some(ONE));
    assert_eq!(
        apply(&mut open, &other, T2, &ids("e3", "doc", "v3")).unwrap_err(),
        RejectReason::IdMismatch
    );
    let onto = by(Some("dave"), Action::COPY(at("doc", "v1")), Some(ONE));
    let event = apply(&mut open, &onto, T2, &ids("e3", "doc", "v3")).unwrap();
    assert_eq!(event.sys.previous_version, Some("v1".to_string()));
    assert_eq!(open.get("doc"), Ok("v3".to_string()));
}

#[test]
fn malformed_payload_is_serialization_error() {
    let mut store = store_with_document();
    let update = by(Some("bob"), Action::UPDATE(at("doc", "v1")), Some("{\"title\":"));
    let done = apply(&mut store, &update, T2, &ids("e2", "x", "v2"));
    assert_eq!(done.unwrap_err(), RejectReason::SerializationError);
    assert_eq!(store.get("doc"), Ok("v1".to_string()));
    let mut empty = create_context().unwrap();
    let made = apply(&mut empty, &by(None, create(), Some("oops")), T1, &ids("e1", "doc", "v1"));
    assert_eq!(made.unwrap_err(), RejectReason::SerializationError);
}

#[test]
fn lock_is_checked_before_payload() {
    let mut store = store_with_document();
    let update = by(Some("bob"), Action::UPDATE(at("doc", "v0")), Some("{\"title\":"));
    let done = apply(&mut store, &update, T2, &ids("e2", "x", "v2"));
    assert_eq!(done.unwrap_err(), RejectReason::OptimisticLockFailure);
}

#[test]
fn version_that_was_used_before_is_refused_by_the_store() {
    let mut store = store_with_document();
    let update = by(Some("bob"), Action::UPDATE(at("doc", "v1")), Some(TWO));
    let done = apply(&mut store, &update, T2, &ids("e2", "x", "v1"));
    assert_eq!(done.unwrap_err(), RejectReason::StoreError(StoreError::KeyExists));
    assert_eq!(store.get_latest("doc").unwrap().payload, Some(ONE.to_string()));
}

#[test]
fn only_store_errors_are_retriable() {
    assert!(RejectReason::StoreError(StoreError::KeyExists).is_retriable());
    assert!(RejectReason::StoreError(StoreError::BrokenLink).is_retriable());
    for reason in [
        RejectReason::AlreadyExists,
        RejectReason::NotFound,
        RejectReason::OptimisticLockFailure,
        RejectReason::IdMismatch,
        RejectReason::DocumentSealed,
        RejectReason::ChecksumMismatch,
        RejectReason::SerializationError,
    ] {
        assert!(!reason.is_retriable());
    }
}

#[test]
fn decide_works_on_what_it_is_given() {
    let command = by(Some("bob"), Action::UPDATE(at("doc", "v1")), Some(TWO));
    let none: Option<LedgerEvent<String>> = None;
    let fresh = ids("e2", "x", "v2");
    let missing = decide(&command, &none, &none, T2, &fresh, &Stamp::Fingerprint("h".to_string()));
    assert_eq!(missing.unwrap_err(), RejectReason::NotFound);
    let store = store_with_document();
    let current = store.get_latest("doc");
    let unreadable = decide(&command, &current, &none, T2, &fresh, &Stamp::Unreadable);
    assert_eq!(unreadable.unwrap_err(), RejectReason::SerializationError);
    let absent = decide(&command, &current, &none, T2, &fresh, &Stamp::Absent).unwrap();
    assert_eq!(absent.sys.payload_checksum, None);
    let stamped =
        decide(&command, &current, &none, T2, &fresh, &Stamp::Fingerprint("h".to_string())).unwrap();
    assert_eq!(stamped.sys.payload_checksum, Some("h".to_string()));
    assert_eq!(stamped.sys.version, "v2");
    assert_eq!(stamped.event_id, "e2");
}

#[test]
fn fresh_ids_are_distinct_hyphenated_uuids() {
    let a = FreshIds::draw();
    let b = FreshIds::draw();
    let all = [
        &a.event_id,
        &a.revision.id,
        &a.revision.version,
        &b.event_id,
        &b.revision.id,
        &b.revision.version,
    ];
    for (i, x) in all.iter().enumerate() {
        assert_eq!(x.len(), 36);
        assert_eq!(x.matches('-').count(), 4);
        for y in all.iter().skip(i + 1) {
            assert_ne!(x, y);
        }
    }
}

#[test]
fn process_command_creates_then_updates() {
    let mut store = create_context().unwrap();
    let created = process_command(&mut store, &by(Some("alice"), create(), Some(ONE))).unwrap();
    let id = created.sys.id.clone();
    let version = created.sys.version.clone();
    assert_ne!(id, version);
    assert_eq!(store.get(&id), Ok(version.clone()));
    assert!(created.sys.created_at().is_some());
    let update = by(Some("bob"), Action::UPDATE(at(&id, &version)), Some(TWO));
    let updated = process_command(&mut store, &update).unwrap();
    assert_eq!(updated.sys.previous_version, Some(version.clone()));
    assert_ne!(updated.sys.version, version);
    assert_ne!(updated.event_id, created.event_id);
    let again = process_command(&mut store, &update);
    assert_eq!(again.unwrap_err(), RejectReason::OptimisticLockFailure);
}

#[test]
fn every_reason_has_its_message() {
    assert_eq!(
        RejectReason::OptimisticLockFailure.message(),
        "Optimistic lock error, retry change on latest data"
    );
    assert_eq!(
        RejectReason::DocumentSealed.message(),
        "Document is sealed. Copy data to new document."
    );
    assert_eq!(RejectReason::IdMismatch.message(), "internal id mismatch");
    assert_eq!(RejectReason::NotFound.message(), "Error cannot update unexisting value");
    assert_eq!(
        RejectReason::AlreadyExists.message(),
        "Tried to create a new value with an already existing id or version"
    );
    assert_eq!(
        RejectReason::ChecksumMismatch.message(),
        "Invalid copy (unallowed update) command"
    );
    assert_eq!(RejectReason::SerializationError.message(), "Payload cannot be written as JSON");
    assert_eq!(
        RejectReason::StoreError(StoreError::KeyExists).message(),
        "The store refused the revision, retry the command"
    );
}

fn has_form_of_random_uuid(text: &str) -> bool {
    let chars: Vec<char> = text.chars().collect();
    chars.len() == 36
        && chars.iter().enumerate().all(|(i, c)| {
            if i == 8 || i == 13 || i == 18 || i == 23 {
                *c == '-'
            } else {
                matches!(*c, '0'..='9' | 'a'..='f')
            }
        })
        && chars[14] == '4'
        && matches!(chars[19], '8' | '9' | 'a' | 'b')
}

#[test]
fn drawn_identifiers_have_form_of_random_uuid() {
    for _ in 0..50 {
        let drawn = FreshIds::draw();
        assert!(has_form_of_random_uuid(&drawn.event_id), "{}", drawn.event_id);
        assert!(has_form_of_random_uuid(&drawn.revision.id), "{}", drawn.revision.id);
        assert!(has_form_of_random_uuid(&drawn.revision.version), "{}", drawn.revision.version);
    }
}

#[test]
fn new_puts_identifiers_in_their_places() {
    let made = FreshIds::new("e".to_string(), "i".to_string(), "v".to_string());
    assert_eq!(made.event_id, "e");
    assert_eq!(made.revision.id, "i");
    assert_eq!(made.revision.version, "v");
}
