//! The records of the ledger: commands, events and the system block of a
//! revision, each with the mathematical value that contracts speak of.

use vstd::prelude::*;

verus! {

/// The text of an optional string.
pub open spec fn text_of(field: Option<String>) -> Option<Seq<char>> {
    match field {
        Some(s) => Some(s@),
        None => None,
    }
}

/// Copies an optional string.
pub fn copy_text(field: &Option<String>) -> (copy: Option<String>)
    ensures
        copy == *field,
{
    match field {
        Some(s) => Some(s.clone()),
        None => None,
    }
}

/// A reference to one revision of a document: the caller's belief about the
/// document's current version.
#[derive(Debug)]
pub struct Revision {
    pub id: String,
    pub version: String,
}

pub struct RevisionView {
    pub id: Seq<char>,
    pub version: Seq<char>,
}

impl View for Revision {
    type V = RevisionView;

    open spec fn view(&self) -> RevisionView {
        RevisionView { id: self.id@, version: self.version@ }
    }
}

impl Clone for Revision {
    fn clone(&self) -> (copy: Self)
        ensures
            copy == *self,
    {
        Revision { id: self.id.clone(), version: self.version.clone() }
    }
}

/// What a command asks for.
#[allow(non_camel_case_types)]
#[derive(Debug)]
pub enum Action {
    CREATE { category: String, content_type: String, bucket: String, env: String },
    UPDATE(Revision),
    DELETE(Revision),
    COPY(Revision),
    SEAL(Revision),
}

#[allow(non_camel_case_types)]
pub enum ActionView {
    CREATE { category: Seq<char>, content_type: Seq<char>, bucket: Seq<char>, env: Seq<char> },
    UPDATE(RevisionView),
    DELETE(RevisionView),
    COPY(RevisionView),
    SEAL(RevisionView),
}

impl View for Action {
    type V = ActionView;

    open spec fn view(&self) -> ActionView {
        match *self {
            Action::CREATE { category, content_type, bucket, env } => ActionView::CREATE {
                category: category@,
                content_type: content_type@,
                bucket: bucket@,
                env: env@,
            },
            Action::UPDATE(r) => ActionView::UPDATE(r@),
            Action::DELETE(r) => ActionView::DELETE(r@),
            Action::COPY(r) => ActionView::COPY(r@),
            Action::SEAL(r) => ActionView::SEAL(r@),
        }
    }
}

impl Clone for Action {
    fn clone(&self) -> (copy: Self)
        ensures
            copy == *self,
    {
        match self {
            Action::CREATE { category, content_type, bucket, env } => Action::CREATE {
                category: category.clone(),
                content_type: content_type.clone(),
                bucket: bucket.clone(),
                env: env.clone(),
            },
            Action::UPDATE(r) => Action::UPDATE(r.clone()),
            Action::DELETE(r) => Action::DELETE(r.clone()),
            Action::COPY(r) => Action::COPY(r.clone()),
            Action::SEAL(r) => Action::SEAL(r.clone()),
        }
    }
}

impl ActionView {
    /// The revision that the action refers to; `CREATE` refers to none.
    pub open spec fn reference(self) -> Option<RevisionView> {
        match self {
            ActionView::CREATE { .. } => None,
            ActionView::UPDATE(r) => Some(r),
            ActionView::DELETE(r) => Some(r),
            ActionView::COPY(r) => Some(r),
            ActionView::SEAL(r) => Some(r),
        }
    }
}

/// The system block of a revision: where the document belongs, who touched it
/// and when, and how the revision is linked to the one before it.
#[derive(Debug)]
pub struct Sys {
    /// Unique id of the document.
    pub id: String,
    /// Kind of the document.
    pub category: String,
    pub content_type: String,
    pub bucket: String,
    pub env: String,
    pub published_count: u32,
    pub published_version: Option<String>,
    pub version: String,
    pub previous_version: Option<String>,
    pub first_published_at: Option<String>,
    pub published_at: Option<String>,
    pub published_by: Option<String>,
    pub sealed_at: Option<String>,
    pub sealed_by: Option<String>,
    pub created_at: Option<String>,
    pub created_by: String,
    pub updated_at: Option<String>,
    pub updated_by: String,
    pub payload_checksum: Option<String>,
}

pub struct SysView {
    pub id: Seq<char>,
    pub category: Seq<char>,
    pub content_type: Seq<char>,
    pub bucket: Seq<char>,
    pub env: Seq<char>,
    pub published_count: u32,
    pub published_version: Option<Seq<char>>,
    pub version: Seq<char>,
    pub previous_version: Option<Seq<char>>,
    pub first_published_at: Option<Seq<char>>,
    pub published_at: Option<Seq<char>>,
    pub published_by: Option<Seq<char>>,
    pub sealed_at: Option<Seq<char>>,
    pub sealed_by: Option<Seq<char>>,
    pub created_at: Option<Seq<char>>,
    pub created_by: Seq<char>,
    pub updated_at: Option<Seq<char>>,
    pub updated_by: Seq<char>,
    pub payload_checksum: Option<Seq<char>>,
}

impl View for Sys {
    type V = SysView;

    open spec fn view(&self) -> SysView {
        SysView {
            id: self.id@,
            category: self.category@,
            content_type: self.content_type@,
            bucket: self.bucket@,
            env: self.env@,
            published_count: self.published_count,
            published_version: text_of(self.published_version),
            version: self.version@,
            previous_version: text_of(self.previous_version),
            first_published_at: text_of(self.first_published_at),
            published_at: text_of(self.published_at),
            published_by: text_of(self.published_by),
            sealed_at: text_of(self.sealed_at),
            sealed_by: text_of(self.sealed_by),
            created_at: text_of(self.created_at),
            created_by: self.created_by@,
            updated_at: text_of(self.updated_at),
            updated_by: self.updated_by@,
            payload_checksum: text_of(self.payload_checksum),
        }
    }
}

impl Clone for Sys {
    fn clone(&self) -> (copy: Self)
        ensures
            copy == *self,
    {
        Sys {
            id: self.id.clone(),
            category: self.category.clone(),
            content_type: self.content_type.clone(),
            bucket: self.bucket.clone(),
            env: self.env.clone(),
            published_count: self.published_count,
            published_version: copy_text(&self.published_version),
            version: self.version.clone(),
            previous_version: copy_text(&self.previous_version),
            first_published_at: copy_text(&self.first_published_at),
            published_at: copy_text(&self.published_at),
            published_by: copy_text(&self.published_by),
            sealed_at: copy_text(&self.sealed_at),
            sealed_by: copy_text(&self.sealed_by),
            created_at: copy_text(&self.created_at),
            created_by: self.created_by.clone(),
            updated_at: copy_text(&self.updated_at),
            updated_by: self.updated_by.clone(),
            payload_checksum: copy_text(&self.payload_checksum),
        }
    }
}

impl SysView {
    /// A sealed document takes no further revision.
    pub open spec fn sealed(self) -> bool {
        self.sealed_at is Some
    }
}

/// A request to change a document.
#[derive(Debug)]
pub struct LedgerCommand<T> {
    pub tracking_id: String,
    pub action: Action,
    pub payload: Option<T>,
    pub user_id: Option<String>,
}

pub struct LedgerCommandView {
    pub tracking_id: Seq<char>,
    pub action: ActionView,
    pub payload: Option<Seq<char>>,
    pub user_id: Option<Seq<char>>,
}

impl View for LedgerCommand<String> {
    type V = LedgerCommandView;

    open spec fn view(&self) -> LedgerCommandView {
        LedgerCommandView {
            tracking_id: self.tracking_id@,
            action: self.action@,
            payload: text_of(self.payload),
            user_id: text_of(self.user_id),
        }
    }
}

impl Clone for LedgerCommand<String> {
    fn clone(&self) -> (copy: Self)
        ensures
            copy == *self,
    {
        LedgerCommand {
            tracking_id: self.tracking_id.clone(),
            action: self.action.clone(),
            payload: copy_text(&self.payload),
            user_id: copy_text(&self.user_id),
        }
    }
}

impl LedgerCommandView {
    /// The user that a revision records for the command: the empty name where
    /// the command names nobody.
    pub open spec fn user(self) -> Seq<char> {
        match self.user_id {
            Some(u) => u,
            None => Seq::empty(),
        }
    }
}

/// The record of an accepted command.
#[derive(Debug)]
pub struct LedgerEvent<T> {
    pub event_id: String,
    pub action: Action,
    pub payload: Option<T>,
    pub sys: Sys,
}

pub struct LedgerEventView {
    pub event_id: Seq<char>,
    pub action: ActionView,
    pub payload: Option<Seq<char>>,
    pub sys: SysView,
}

impl View for LedgerEvent<String> {
    type V = LedgerEventView;

    open spec fn view(&self) -> LedgerEventView {
        LedgerEventView {
            event_id: self.event_id@,
            action: self.action@,
            payload: text_of(self.payload),
            sys: self.sys@,
        }
    }
}

impl Clone for LedgerEvent<String> {
    fn clone(&self) -> (copy: Self)
        ensures
            copy == *self,
    {
        LedgerEvent {
            event_id: self.event_id.clone(),
            action: self.action.clone(),
            payload: copy_text(&self.payload),
            sys: self.sys.clone(),
        }
    }
}

/// What a connected client did.
#[derive(Debug)]
pub enum SubscriptionEvent {
    Open { conn_id: String },
    Subscribe { conn_id: String, topic: String },
    Unsubscribe { conn_id: String, topic: String },
    Close { conn_id: String },
}

pub enum SubscriptionEventView {
    Open { conn_id: Seq<char> },
    Subscribe { conn_id: Seq<char>, topic: Seq<char> },
    Unsubscribe { conn_id: Seq<char>, topic: Seq<char> },
    Close { conn_id: Seq<char> },
}

impl View for SubscriptionEvent {
    type V = SubscriptionEventView;

    open spec fn view(&self) -> SubscriptionEventView {
        match *self {
            SubscriptionEvent::Open { conn_id } => SubscriptionEventView::Open {
                conn_id: conn_id@,
            },
            SubscriptionEvent::Subscribe { conn_id, topic } => SubscriptionEventView::Subscribe {
                conn_id: conn_id@,
                topic: topic@,
            },
            SubscriptionEvent::Unsubscribe { conn_id, topic } => {
                SubscriptionEventView::Unsubscribe { conn_id: conn_id@, topic: topic@ }
            },
            SubscriptionEvent::Close { conn_id } => SubscriptionEventView::Close {
                conn_id: conn_id@,
            },
        }
    }
}

/// A point in time: the seconds since the first of January 1970, UTC, and
/// the nanoseconds since the last full second.
#[derive(Debug, Clone, Copy, PartialEq, Eq, Structural)]
pub struct Timestamp {
    pub seconds: i64,
    pub nanos: u32,
}

/// The point in time that `text` names when it is read as a date and time
/// with an offset, in seconds and nanoseconds; `None` where it names none.
pub uninterp spec fn utc_instant(text: Seq<char>) -> Option<(i64, u32)>;

/// Parses `text` as a `chrono::DateTime<Utc>` through its `FromStr`, which
/// takes a relaxed RFC 3339 form, and hands out the result of `timestamp`
/// and `timestamp_subsec_nanos`. The grammar is chrono's, taken as it is.
#[verifier::external_body]
fn parse_utc(text: &str) -> (parsed: Option<(i64, u32)>)
    ensures
        parsed == utc_instant(text@),
{
    match text.parse::<chrono::DateTime<chrono::Utc>>() {
        Ok(time) => Some((time.timestamp(), time.timestamp_subsec_nanos())),
        Err(_) => None,
    }
}

/// The point in time of an optional pair of seconds and nanoseconds.
pub open spec fn timestamp_of(parsed: Option<(i64, u32)>) -> Option<Timestamp> {
    match parsed {
        Some((seconds, nanos)) => Some(Timestamp { seconds, nanos }),
        None => None,
    }
}

/// The point in time that an optional date field names: none where the
/// field is empty, and none where its text is no date.
pub open spec fn instant_of(field: Option<Seq<char>>) -> Option<Timestamp> {
    match field {
        Some(text) => timestamp_of(utc_instant(text)),
        None => None,
    }
}

impl Timestamp {
    /// Makes a point in time of what the parser gave.
    pub fn from_parsed(parsed: Option<(i64, u32)>) -> (time: Option<Timestamp>)
        ensures
            time == timestamp_of(parsed),
    {
        match parsed {
            Some((seconds, nanos)) => Some(Timestamp { seconds, nanos }),
            None => None,
        }
    }

    /// Reads an optional date field.
    pub fn read(field: &Option<String>) -> (time: Option<Timestamp>)
        ensures
            time == instant_of(text_of(*field)),
    {
        match field {
            Some(text) => Timestamp::from_parsed(parse_utc(text.as_str())),
            None => None,
        }
    }
}

impl Sys {
    /// When the document was first published.
    pub fn first_published_at(&self) -> (time: Option<Timestamp>)
        ensures
            time == instant_of(self@.first_published_at),
    {
        Timestamp::read(&self.first_published_at)
    }

    /// When the document was last published.
    pub fn published_at(&self) -> (time: Option<Timestamp>)
        ensures
            time == instant_of(self@.published_at),
    {
        Timestamp::read(&self.published_at)
    }

    /// When the document was created.
    pub fn created_at(&self) -> (time: Option<Timestamp>)
        ensures
            time == instant_of(self@.created_at),
    {
        Timestamp::read(&self.created_at)
    }

    /// When the revision was made.
    pub fn updated_at(&self) -> (time: Option<Timestamp>)
        ensures
            time == instant_of(self@.updated_at),
    {
        Timestamp::read(&self.updated_at)
    }
}

} // verus!
