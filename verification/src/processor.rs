//! The command processor: it decides, from the store's current state, whether
//! a command is legal, and turns an accepted command into the event that the
//! store then holds as the document's latest revision.

use vstd::prelude::*;

use crate::checksum::{stamp, stamp_of, Stamp, StampView};
use crate::domain::{
    copy_text, text_of, Action, ActionView, LedgerCommand, LedgerCommandView, LedgerEvent,
    LedgerEventView, Revision, RevisionView, Sys, SysView,
};
use crate::lmdb_store::{view_of, LedgerView, LmdbContext, StoreError};

verus! {

/// Why a command was rejected.
#[derive(Debug, Clone, Copy, PartialEq, Eq, Structural)]
pub enum RejectReason {
    /// A document already stands under the id that was drawn for a new one.
    AlreadyExists,
    /// The document, or the revision to copy from, is not in the store.
    NotFound,
    /// The version that the command names is not the document's latest.
    OptimisticLockFailure,
    /// The revision found does not belong to the document that the command names.
    IdMismatch,
    /// The document is sealed.
    DocumentSealed,
    /// The payload of a copy does not have the checksum of its source.
    ChecksumMismatch,
    /// The payload cannot be committed.
    SerializationError,
    /// The store refused the new revision.
    StoreError(StoreError),
}

/// What is said to the sender of a rejected command.
pub open spec fn message_of(reason: RejectReason) -> Seq<char> {
    match reason {
        RejectReason::AlreadyExists => {
            "Tried to create a new value with an already existing id or version"@
        },
        RejectReason::NotFound => "Error cannot update unexisting value"@,
        RejectReason::OptimisticLockFailure => {
            "Optimistic lock error, retry change on latest data"@
        },
        RejectReason::IdMismatch => "internal id mismatch"@,
        RejectReason::DocumentSealed => "Document is sealed. Copy data to new document."@,
        RejectReason::ChecksumMismatch => "Invalid copy (unallowed update) command"@,
        RejectReason::SerializationError => "Payload cannot be written as JSON"@,
        RejectReason::StoreError(_) => "The store refused the revision, retry the command"@,
    }
}

impl RejectReason {
    /// The message for the sender of the command.
    pub fn message(&self) -> (text: String)
        ensures
            text@ == message_of(*self),
    {
        match self {
            RejectReason::AlreadyExists => {
                "Tried to create a new value with an already existing id or version".to_owned()
            },
            RejectReason::NotFound => "Error cannot update unexisting value".to_owned(),
            RejectReason::OptimisticLockFailure => {
                "Optimistic lock error, retry change on latest data".to_owned()
            },
            RejectReason::IdMismatch => "internal id mismatch".to_owned(),
            RejectReason::DocumentSealed => {
                "Document is sealed. Copy data to new document.".to_owned()
            },
            RejectReason::ChecksumMismatch => "Invalid copy (unallowed update) command".to_owned(),
            RejectReason::SerializationError => "Payload cannot be written as JSON".to_owned(),
            RejectReason::StoreError(_) => {
                "The store refused the revision, retry the command".to_owned()
            },
        }
    }

    /// Whether the same command may succeed when it is delivered again. Only
    /// a refusal by the store is of this kind; every other reason is final
    /// for the command.
    pub fn is_retriable(&self) -> (retriable: bool)
        ensures
            retriable == (*self is StoreError),
    {
        match self {
            RejectReason::StoreError(_) => true,
            _ => false,
        }
    }
}

/// The identifiers drawn for one command: that of the event, and the id and
/// version of the revision. The id is used where the command makes a new
/// document.
#[derive(Debug)]
pub struct FreshIds {
    pub event_id: String,
    pub revision: Revision,
}

pub struct FreshIdsView {
    pub event_id: Seq<char>,
    pub revision: RevisionView,
}

impl View for FreshIds {
    type V = FreshIdsView;

    open spec fn view(&self) -> FreshIdsView {
        FreshIdsView { event_id: self.event_id@, revision: self.revision@ }
    }
}

/// The view of a processing result.
pub open spec fn outcome_of(result: Result<LedgerEvent<String>, RejectReason>) -> Result<
    LedgerEventView,
    RejectReason,
> {
    match result {
        Ok(event) => Ok(event@),
        Err(reason) => Err(reason),
    }
}

/// The system block of a new document.
pub open spec fn created_sys(
    action: ActionView,
    user: Seq<char>,
    now: Seq<char>,
    fresh: FreshIdsView,
    checksum: Option<Seq<char>>,
) -> SysView
    recommends
        action is CREATE,
{
    SysView {
        id: fresh.revision.id,
        category: action->category,
        content_type: action->content_type,
        bucket: action->bucket,
        env: action->env,
        published_count: 0,
        published_version: None,
        version: fresh.revision.version,
        previous_version: None,
        first_published_at: Some(now),
        published_at: None,
        published_by: None,
        sealed_at: None,
        sealed_by: None,
        created_at: Some(now),
        created_by: user,
        updated_at: Some(now),
        updated_by: user,
        payload_checksum: checksum,
    }
}

/// The system block of the revision that follows `base` in the same
/// document: it is linked to the version that the command named, stamped
/// with the user, the time and the checksum, and otherwise as `base`.
pub open spec fn revised_sys(
    base: SysView,
    reference: RevisionView,
    user: Seq<char>,
    now: Seq<char>,
    version: Seq<char>,
    checksum: Option<Seq<char>>,
) -> SysView {
    SysView {
        id: reference.id,
        version: version,
        previous_version: Some(reference.version),
        updated_at: Some(now),
        updated_by: user,
        payload_checksum: checksum,
        ..base
    }
}

/// The system block of the revision that seals a document.
pub open spec fn sealed_sys(
    base: SysView,
    reference: RevisionView,
    user: Seq<char>,
    now: Seq<char>,
    version: Seq<char>,
    checksum: Option<Seq<char>>,
) -> SysView {
    SysView {
        sealed_at: Some(now),
        sealed_by: Some(user),
        ..revised_sys(base, reference, user, now, version, checksum)
    }
}

/// The system block of the first revision of a copy: a new document that is
/// linked to `base`, neither published nor sealed, and otherwise as `base`.
pub open spec fn copied_sys(
    base: SysView,
    user: Seq<char>,
    now: Seq<char>,
    fresh: FreshIdsView,
    checksum: Option<Seq<char>>,
) -> SysView {
    SysView {
        id: fresh.revision.id,
        published_count: 0,
        published_version: None,
        version: fresh.revision.version,
        previous_version: Some(base.version),
        first_published_at: None,
        published_at: None,
        published_by: None,
        sealed_at: None,
        sealed_by: None,
        updated_at: Some(now),
        updated_by: user,
        payload_checksum: checksum,
        ..base
    }
}

/// The checks that a revision must pass before a command may follow it: the
/// command names its version, it belongs to the document that the command
/// names, and it is not sealed. The first check that fails gives the reason.
pub open spec fn gate(found: SysView, reference: RevisionView) -> Option<RejectReason> {
    if found.version != reference.version {
        Some(RejectReason::OptimisticLockFailure)
    } else if found.id != reference.id {
        Some(RejectReason::IdMismatch)
    } else if found.sealed() {
        Some(RejectReason::DocumentSealed)
    } else {
        None
    }
}

/// The id under which the processor reads the store for a command: the
/// document that the command names, or the id drawn for the document that
/// it makes.
pub open spec fn target_id(action: ActionView, fresh: FreshIdsView) -> Seq<char> {
    match action {
        ActionView::CREATE { .. } => fresh.revision.id,
        ActionView::COPY(_) => fresh.revision.id,
        ActionView::UPDATE(r) => r.id,
        ActionView::DELETE(r) => r.id,
        ActionView::SEAL(r) => r.id,
    }
}

/// The version under which the processor reads the source of a copy; none
/// for any other command.
pub open spec fn source_version_of(action: ActionView) -> Option<Seq<char>> {
    match action {
        ActionView::COPY(r) => Some(r.version),
        _ => None,
    }
}

/// The revision that a copy names as its source.
pub open spec fn source_of(s: LedgerView, action: ActionView) -> Option<LedgerEventView> {
    match source_version_of(action) {
        Some(version) => s.get_by_version(version),
        None => None,
    }
}

/// What stands in the way of a command, given the revision `current` found
/// under the command's target id and, for a copy, the revision `source`
/// found under the version that the command names. `None` where nothing does.
pub open spec fn objection(
    action: ActionView,
    current: Option<LedgerEventView>,
    source: Option<LedgerEventView>,
    stamp: StampView,
) -> Option<RejectReason> {
    let unreadable = if stamp is Unreadable {
        Some(RejectReason::SerializationError)
    } else {
        None
    };
    match action {
        ActionView::CREATE { .. } => if current is Some {
            Some(RejectReason::AlreadyExists)
        } else {
            unreadable
        },
        ActionView::COPY(r) => match current {
            Some(taken) => if gate(taken.sys, r) is Some {
                gate(taken.sys, r)
            } else if taken.sys.payload_checksum != stamp.checksum() {
                Some(RejectReason::ChecksumMismatch)
            } else {
                unreadable
            },
            None => match source {
                None => Some(RejectReason::NotFound),
                Some(origin) => if origin.sys.id != r.id {
                    Some(RejectReason::IdMismatch)
                } else if origin.sys.payload_checksum != stamp.checksum() {
                    Some(RejectReason::ChecksumMismatch)
                } else {
                    unreadable
                },
            },
        },
        _ => match current {
            None => Some(RejectReason::NotFound),
            Some(found) => if gate(found.sys, action.reference()->0) is Some {
                gate(found.sys, action.reference()->0)
            } else {
                unreadable
            },
        },
    }
}

/// The revision that an accepted command builds on: none for `CREATE`; for a
/// copy the revision under the drawn id where there is one, else the source.
pub open spec fn base_of(
    action: ActionView,
    current: Option<LedgerEventView>,
    source: Option<LedgerEventView>,
) -> Option<LedgerEventView> {
    match action {
        ActionView::CREATE { .. } => None,
        ActionView::COPY(_) => if current is Some {
            current
        } else {
            source
        },
        _ => current,
    }
}

/// The event of an accepted command.
pub open spec fn event_of(
    command: LedgerCommandView,
    base: Option<LedgerEventView>,
    now: Seq<char>,
    fresh: FreshIdsView,
    stamp: StampView,
) -> LedgerEventView {
    let user = command.user();
    let version = fresh.revision.version;
    match command.action {
        ActionView::CREATE { .. } => LedgerEventView {
            event_id: fresh.event_id,
            action: command.action,
            payload: command.payload,
            sys: created_sys(command.action, user, now, fresh, stamp.checksum()),
        },
        ActionView::UPDATE(r) => LedgerEventView {
            event_id: fresh.event_id,
            action: command.action,
            payload: command.payload,
            sys: revised_sys(base->0.sys, r, user, now, version, stamp.checksum()),
        },
        ActionView::DELETE(r) => LedgerEventView {
            event_id: fresh.event_id,
            action: command.action,
            payload: None,
            sys: revised_sys(base->0.sys, r, user, now, version, None),
        },
        ActionView::COPY(r) => LedgerEventView {
            event_id: fresh.event_id,
            action: command.action,
            payload: command.payload,
            sys: copied_sys(base->0.sys, user, now, fresh, stamp.checksum()),
        },
        ActionView::SEAL(r) => LedgerEventView {
            event_id: fresh.event_id,
            action: command.action,
            payload: command.payload,
            sys: sealed_sys(base->0.sys, r, user, now, version, stamp.checksum()),
        },
    }
}

/// The processor's decision on a command: the event that it becomes, or the
/// reason for which it is rejected.
pub open spec fn decision(
    command: LedgerCommandView,
    current: Option<LedgerEventView>,
    source: Option<LedgerEventView>,
    now: Seq<char>,
    fresh: FreshIdsView,
    stamp: StampView,
) -> Result<LedgerEventView, RejectReason> {
    match objection(command.action, current, source, stamp) {
        Some(reason) => Err(reason),
        None => Ok(
            event_of(command, base_of(command.action, current, source), now, fresh, stamp),
        ),
    }
}

/// One step of the ledger: the store after the command and the outcome of
/// the command. A rejected command leaves the store as it was.
pub open spec fn step(
    s: LedgerView,
    command: LedgerCommandView,
    now: Seq<char>,
    fresh: FreshIdsView,
    stamp: StampView,
) -> (LedgerView, Result<LedgerEventView, RejectReason>) {
    let current = s.get_latest(target_id(command.action, fresh));
    let source = source_of(s, command.action);
    match decision(command, current, source, now, fresh, stamp) {
        Err(reason) => (s, Err(reason)),
        Ok(event) => match s.accepts(event) {
            Err(refusal) => (s, Err(RejectReason::StoreError(refusal))),
            Ok(_) => (s.put(event), Ok(event)),
        },
    }
}

/// Whether two optional strings hold the same text, or both none.
fn same_text(a: &Option<String>, b: &Option<String>) -> (same: bool)
    ensures
        same == (text_of(*a) == text_of(*b)),
{
    match (a, b) {
        (Some(x), Some(y)) => *x == *y,
        (None, None) => true,
        _ => false,
    }
}

/// The checksum that a stamp gives to a revision.
fn checksum_of(stamp: &Stamp) -> (checksum: Option<String>)
    ensures
        text_of(checksum) == stamp@.checksum(),
{
    match stamp {
        Stamp::Fingerprint(hash) => Some(hash.clone()),
        _ => None,
    }
}

/// Runs the checks of `gate`.
fn check(found: &Sys, reference: &Revision) -> (failed: Option<RejectReason>)
    ensures
        failed == gate(found@, reference@),
{
    if !(found.version == reference.version) {
        Some(RejectReason::OptimisticLockFailure)
    } else if !(found.id == reference.id) {
        Some(RejectReason::IdMismatch)
    } else if found.sealed_at.is_some() {
        Some(RejectReason::DocumentSealed)
    } else {
        None
    }
}

/// Finds what stands in the way of a command.
fn object(
    action: &Action,
    current: &Option<LedgerEvent<String>>,
    source: &Option<LedgerEvent<String>>,
    stamp: &Stamp,
) -> (failed: Option<RejectReason>)
    ensures
        failed == objection(action@, view_of(*current), view_of(*source), stamp@),
{
    let unreadable = match stamp {
        Stamp::Unreadable => Some(RejectReason::SerializationError),
        _ => None,
    };
    match action {
        Action::CREATE { .. } => {
            if current.is_some() {
                Some(RejectReason::AlreadyExists)
            } else {
                unreadable
            }
        },
        Action::COPY(r) => {
            let asserted = checksum_of(stamp);
            match current {
                Some(taken) => {
                    let failed = check(&taken.sys, r);
                    if failed.is_some() {
                        failed
                    } else if !same_text(&taken.sys.payload_checksum, &asserted) {
                        Some(RejectReason::ChecksumMismatch)
                    } else {
                        unreadable
                    }
                },
                None => match source {
                    None => Some(RejectReason::NotFound),
                    Some(origin) => {
                        if !(origin.sys.id == r.id) {
                            Some(RejectReason::IdMismatch)
                        } else if !same_text(&origin.sys.payload_checksum, &asserted) {
                            Some(RejectReason::ChecksumMismatch)
                        } else {
                            unreadable
                        }
                    },
                },
            }
        },
        Action::UPDATE(r) | Action::DELETE(r) | Action::SEAL(r) => match current {
            None => Some(RejectReason::NotFound),
            Some(found) => {
                let failed = check(&found.sys, r);
                if failed.is_some() {
                    failed
                } else {
                    unreadable
                }
            },
        },
    }
}

/// Builds the system block of a new document.
fn create_sys(
    category: &String,
    content_type: &String,
    bucket: &String,
    env: &String,
    user: String,
    now: &str,
    fresh: &FreshIds,
    checksum: Option<String>,
) -> (sys: Sys)
    ensures
        sys@ == created_sys(
            ActionView::CREATE {
                category: category@,
                content_type: content_type@,
                bucket: bucket@,
                env: env@,
            },
            user@,
            now@,
            fresh@,
            text_of(checksum),
        ),
{
    Sys {
        id: fresh.revision.id.clone(),
        category: category.clone(),
        content_type: content_type.clone(),
        bucket: bucket.clone(),
        env: env.clone(),
        published_count: 0,
        published_version: None,
        version: fresh.revision.version.clone(),
        previous_version: None,
        first_published_at: Some(now.to_owned()),
        published_at: None,
        published_by: None,
        sealed_at: None,
        sealed_by: None,
        created_at: Some(now.to_owned()),
        created_by: user.clone(),
        updated_at: Some(now.to_owned()),
        updated_by: user,
        payload_checksum: checksum,
    }
}

/// Builds the system block of the revision that follows `base`.
fn revise_sys(
    base: &Sys,
    reference: &Revision,
    user: String,
    now: &str,
    version: &String,
    checksum: Option<String>,
) -> (sys: Sys)
    ensures
        sys@ == revised_sys(base@, reference@, user@, now@, version@, text_of(checksum)),
{
    let mut sys = base.clone();
    sys.id = reference.id.clone();
    sys.version = version.clone();
    sys.previous_version = Some(reference.version.clone());
    sys.updated_at = Some(now.to_owned());
    sys.updated_by = user;
    sys.payload_checksum = checksum;
    sys
}

/// Builds the system block of the revision that seals a document.
fn seal_sys(
    base: &Sys,
    reference: &Revision,
    user: String,
    now: &str,
    version: &String,
    checksum: Option<String>,
) -> (sys: Sys)
    ensures
        sys@ == sealed_sys(base@, reference@, user@, now@, version@, text_of(checksum)),
{
    let sealer = user.clone();
    let mut sys = revise_sys(base, reference, user, now, version, checksum);
    sys.sealed_at = Some(now.to_owned());
    sys.sealed_by = Some(sealer);
    sys
}

/// Builds the system block of the first revision of a copy.
fn copy_sys(base: &Sys, user: String, now: &str, fresh: &FreshIds, checksum: Option<String>) -> (sys:
    Sys)
    ensures
        sys@ == copied_sys(base@, user@, now@, fresh@, text_of(checksum)),
{
    let mut sys = base.clone();
    sys.id = fresh.revision.id.clone();
    sys.published_count = 0;
    sys.published_version = None;
    sys.version = fresh.revision.version.clone();
    sys.previous_version = Some(base.version.clone());
    sys.first_published_at = None;
    sys.published_at = None;
    sys.published_by = None;
    sys.sealed_at = None;
    sys.sealed_by = None;
    sys.updated_at = Some(now.to_owned());
    sys.updated_by = user;
    sys.payload_checksum = checksum;
    sys
}

/// The id under which the store is to be read for a command.
pub fn target(action: &Action, fresh: &FreshIds) -> (id: String)
    ensures
        id@ == target_id(action@, fresh@),
{
    match action {
        Action::CREATE { .. } => fresh.revision.id.clone(),
        Action::COPY(_) => fresh.revision.id.clone(),
        Action::UPDATE(r) => r.id.clone(),
        Action::DELETE(r) => r.id.clone(),
        Action::SEAL(r) => r.id.clone(),
    }
}

/// The version under which the source of a copy is to be read.
pub fn source_version(action: &Action) -> (version: Option<String>)
    ensures
        text_of(version) == source_version_of(action@),
{
    match action {
        Action::COPY(r) => Some(r.version.clone()),
        _ => None,
    }
}

/// Whether the outcome of a command is final, so that the transport may mark
/// the command as processed: an accepted command is, and a rejected one
/// unless it may succeed when delivered again.
pub fn is_settled(outcome: &Result<LedgerEvent<String>, RejectReason>) -> (settled: bool)
    ensures
        settled == match *outcome {
            Ok(_) => true,
            Err(reason) => !(reason is StoreError),
        },
{
    match outcome {
        Ok(_) => true,
        Err(reason) => !reason.is_retriable(),
    }
}

/// Decides on a command from what the store holds for it: `current` is the
/// latest revision under the command's target id, `source` the revision
/// under the version that a copy names, `stamp` what the examination of the
/// payload gave. The checks are made in a fixed order, the lock before the
/// seal, and the payload last.
pub fn decide(
    command: &LedgerCommand<String>,
    current: &Option<LedgerEvent<String>>,
    source: &Option<LedgerEvent<String>>,
    now: &str,
    fresh: &FreshIds,
    stamp: &Stamp,
) -> (outcome: Result<LedgerEvent<String>, RejectReason>)
    ensures
        outcome_of(outcome) == decision(
            command@,
            view_of(*current),
            view_of(*source),
            now@,
            fresh@,
            stamp@,
        ),
{
    match object(&command.action, current, source, stamp) {
        Some(reason) => { return Err(reason); },
        None => {},
    }
    let user = match &command.user_id {
        Some(u) => u.clone(),
        None => String::new(),
    };
    let checksum = checksum_of(stamp);
    let version = &fresh.revision.version;
    let event = match &command.action {
        Action::CREATE { category, content_type, bucket, env } => LedgerEvent {
            event_id: fresh.event_id.clone(),
            action: command.action.clone(),
            payload: copy_text(&command.payload),
            sys: create_sys(category, content_type, bucket, env, user, now, fresh, checksum),
        },
        Action::UPDATE(r) => LedgerEvent {
            event_id: fresh.event_id.clone(),
            action: command.action.clone(),
            payload: copy_text(&command.payload),
            sys: revise_sys(&current.as_ref().unwrap().sys, r, user, now, version, checksum),
        },
        Action::DELETE(r) => LedgerEvent {
            event_id: fresh.event_id.clone(),
            action: command.action.clone(),
            payload: None,
            sys: revise_sys(&current.as_ref().unwrap().sys, r, user, now, version, None),
        },
        Action::COPY(_) => {
            let base = match current {
                Some(taken) => taken,
                None => source.as_ref().unwrap(),
            };
            LedgerEvent {
                event_id: fresh.event_id.clone(),
                action: command.action.clone(),
                payload: copy_text(&command.payload),
                sys: copy_sys(&base.sys, user, now, fresh, checksum),
            }
        },
        Action::SEAL(r) => LedgerEvent {
            event_id: fresh.event_id.clone(),
            action: command.action.clone(),
            payload: copy_text(&command.payload),
            sys: seal_sys(&current.as_ref().unwrap().sys, r, user, now, version, checksum),
        },
    };
    Ok(event)
}

/// Processes one command against the store. The store is read once, under
/// the command's target id (and, for a copy, under the version it names);
/// the command is decided as `decide` says; an accepted command's event is
/// written to the store and returned. A rejected command changes nothing.
pub fn apply(
    store: &mut LmdbContext,
    command: &LedgerCommand<String>,
    now: &str,
    fresh: &FreshIds,
) -> (outcome: Result<LedgerEvent<String>, RejectReason>)
    ensures
        old(store).wf(),
        final(store).wf(),
        (final(store)@, outcome_of(outcome)) == step(
            old(store)@,
            command@,
            now@,
            fresh@,
            stamp_of(command@.payload),
        ),
{
    let examined = stamp(&command.payload);
    let current = store.get_latest(target(&command.action, fresh).as_str());
    let source = match source_version(&command.action) {
        Some(version) => store.get_by_version(version.as_str()),
        None => None,
    };
    match decide(command, &current, &source, now, fresh, &examined) {
        Err(reason) => Err(reason),
        Ok(event) => match store.set_event(&event) {
            Err(refusal) => Err(RejectReason::StoreError(refusal)),
            Ok(_) => Ok(event),
        },
    }
}

/// Calls `Uuid::new_v4` of the `uuid` crate and writes the identifier with
/// `to_hyphenated`. Which identifier comes is chance: claimed is only the
/// form that the crate gives to every one of them.
#[verifier::external_body]
fn draw_uuid() -> (id: String)
    ensures
        is_random_uuid(id@),
{
    uuid::Uuid::new_v4().to_hyphenated().to_string()
}

impl FreshIds {
    /// Draws the identifiers for one command, each a random UUID of its own.
    pub fn draw() -> (drawn: FreshIds)
        ensures
            is_random_uuid(drawn@.event_id),
            is_random_uuid(drawn@.revision.id),
            is_random_uuid(drawn@.revision.version),
    {
        let id = draw_uuid();
        let version = draw_uuid();
        let event_id = draw_uuid();
        FreshIds::new(event_id, id, version)
    }

    /// Puts three identifiers together: that of the event, and the id and
    /// the version of the revision.
    pub fn new(event_id: String, id: String, version: String) -> (made: FreshIds)
        ensures
            made@ == (FreshIdsView {
                event_id: event_id@,
                revision: RevisionView { id: id@, version: version@ },
            }),
    {
        FreshIds { event_id, revision: Revision { id, version } }
    }
}

/// Whether `c` is a digit of a number written to the base 16 in lower case.
pub open spec fn is_lower_hex(c: char) -> bool {
    ||| c == '0'
    ||| c == '1'
    ||| c == '2'
    ||| c == '3'
    ||| c == '4'
    ||| c == '5'
    ||| c == '6'
    ||| c == '7'
    ||| c == '8'
    ||| c == '9'
    ||| c == 'a'
    ||| c == 'b'
    ||| c == 'c'
    ||| c == 'd'
    ||| c == 'e'
    ||| c == 'f'
}

/// Whether a character of a hyphenated identifier stands where a hyphen does.
pub open spec fn is_hyphen_place(i: int) -> bool {
    i == 8 || i == 13 || i == 18 || i == 23
}

/// The form of a random UUID written with hyphens: 36 characters in five
/// groups of 8, 4, 4, 4 and 12 lower-case hexadecimal digits with a hyphen
/// between them; the third group begins with the version, 4, and the fourth
/// with the variant, one of 8, 9, a and b.
pub open spec fn is_random_uuid(text: Seq<char>) -> bool {
    &&& text.len() == 36
    &&& forall|i: int|
        0 <= i < 36 ==> if is_hyphen_place(i) {
            #[trigger] text[i] == '-'
        } else {
            is_lower_hex(text[i])
        }
    &&& text[14] == '4'
    &&& text[19] == '8' || text[19] == '9' || text[19] == 'a' || text[19] == 'b'
}

/// Calls `Utc::now` of the `chrono` crate and writes the time with
/// `DateTime::to_rfc3339`. The time is the machine's: nothing is claimed of it.
#[verifier::external_body]
fn utc_now() -> String {
    chrono::Utc::now().to_rfc3339()
}

/// Processes one command with identifiers drawn at random and the time of
/// the machine's clock: the outcome is that of `apply` for some time and
/// some identifiers.
pub fn process_command(store: &mut LmdbContext, command: &LedgerCommand<String>) -> (outcome: Result<
    LedgerEvent<String>,
    RejectReason,
>)
    ensures
        old(store).wf(),
        final(store).wf(),
        exists|now: Seq<char>, fresh: FreshIdsView|
            (final(store)@, outcome_of(outcome)) == #[trigger] step(
                old(store)@,
                command@,
                now,
                fresh,
                stamp_of(command@.payload),
            ),
{
    let fresh = FreshIds::draw();
    let now = utc_now();
    apply(store, command, now.as_str(), &fresh)
}

} // verus!
