//! The versioned store: every revision under its version, and for every
//! document a pointer to its latest revision.

use vstd::hash_map::StringHashMap;
use vstd::prelude::*;
use vstd::string::StringExecFns;

use crate::domain::{copy_text, LedgerEvent, LedgerEventView};

verus! {

/// Why the store refused a request.
#[derive(Debug, Clone, Copy, PartialEq, Eq, Structural)]
pub enum StoreError {
    /// Nothing is stored under the key.
    NotFound,
    /// A revision is already stored under the version; revisions are written once.
    KeyExists,
    /// The revision names a previous version that the store does not hold.
    BrokenLink,
    /// The revision belongs to another document than the one to be pointed at it.
    WrongDocument,
}

/// The store as a mathematical value.
pub struct LedgerView {
    /// Every revision, by its version.
    pub revisions: Map<Seq<char>, LedgerEventView>,
    /// The version of the latest revision of every document, by the document's id.
    pub latest: Map<Seq<char>, Seq<char>>,
    /// For every version, the number of links that lead from its revision
    /// down to a first revision.
    pub height: Map<Seq<char>, nat>,
}

impl LedgerView {
    /// The store that holds nothing.
    pub open spec fn empty() -> LedgerView {
        LedgerView { revisions: Map::empty(), latest: Map::empty(), height: Map::empty() }
    }

    /// Every revision is stored under its own version.
    pub open spec fn keyed_by_version(self) -> bool {
        forall|v: Seq<char>| #[trigger]
            self.revisions.contains_key(v) ==> self.revisions[v].sys.version == v
    }

    /// Every link leads to a stored revision that lies one step lower, and
    /// only a first revision lies at height zero.
    pub open spec fn linked(self) -> bool {
        forall|v: Seq<char>| #[trigger]
            self.revisions.contains_key(v) ==> self.height.contains_key(v) && (
            match self.revisions[v].sys.previous_version {
                Some(p) => self.revisions.contains_key(p) && self.height[v] == self.height[p] + 1,
                None => self.height[v] == 0,
            })
    }

    /// Every pointer leads to a stored revision of the document it belongs to.
    pub open spec fn pointed(self) -> bool {
        forall|id: Seq<char>| #[trigger]
            self.latest.contains_key(id) ==> self.revisions.contains_key(self.latest[id])
                && self.revisions[self.latest[id]].sys.id == id
    }

    /// Every document that has a revision has a pointer.
    pub open spec fn indexed(self) -> bool {
        forall|v: Seq<char>| #[trigger]
            self.revisions.contains_key(v) ==> self.latest.contains_key(self.revisions[v].sys.id)
    }

    /// The invariant of the store.
    pub open spec fn wf(self) -> bool {
        &&& self.keyed_by_version()
        &&& self.linked()
        &&& self.pointed()
        &&& self.indexed()
    }

    /// The revision stored under a version.
    pub open spec fn get_by_version(self, version: Seq<char>) -> Option<LedgerEventView> {
        if self.revisions.contains_key(version) {
            Some(self.revisions[version])
        } else {
            None
        }
    }

    /// The latest revision of a document.
    pub open spec fn get_latest(self, id: Seq<char>) -> Option<LedgerEventView> {
        if self.latest.contains_key(id) {
            self.get_by_version(self.latest[id])
        } else {
            None
        }
    }

    /// The version that a document's pointer names.
    pub open spec fn latest_version(self, id: Seq<char>) -> Option<Seq<char>> {
        if self.latest.contains_key(id) {
            Some(self.latest[id])
        } else {
            None
        }
    }

    /// The latest revision of the document that the revision under `version`
    /// belongs to.
    pub open spec fn get_latest_by_version(self, version: Seq<char>) -> Option<LedgerEventView> {
        match self.get_by_version(version) {
            Some(e) => self.get_latest(e.sys.id),
            None => None,
        }
    }

    /// The walk along the links that starts at `version` and yields at most
    /// `fuel` revisions. It ends early at a first revision, and where a
    /// version is not stored.
    pub open spec fn chain(self, version: Seq<char>, fuel: nat) -> Seq<LedgerEventView>
        decreases fuel,
    {
        if fuel == 0 || !self.revisions.contains_key(version) {
            Seq::empty()
        } else {
            let head = self.revisions[version];
            match head.sys.previous_version {
                Some(p) => seq![head] + self.chain(p, (fuel - 1) as nat),
                None => seq![head],
            }
        }
    }

    /// The walk that goes on from an optional version.
    pub open spec fn chain_from(self, cursor: Option<Seq<char>>, fuel: nat) -> Seq<
        LedgerEventView,
    > {
        match cursor {
            Some(v) => self.chain(v, fuel),
            None => Seq::empty(),
        }
    }

    /// Whether the store takes the event as a new revision, and why not.
    pub open spec fn accepts(self, event: LedgerEventView) -> Result<(), StoreError> {
        if self.revisions.contains_key(event.sys.version) {
            Err(StoreError::KeyExists)
        } else if event.sys.previous_version is Some && !self.revisions.contains_key(
            event.sys.previous_version->0,
        ) {
            Err(StoreError::BrokenLink)
        } else {
            Ok(())
        }
    }

    /// The store after it has taken the event: the revision stands under its
    /// version, and its document points at it.
    pub open spec fn put(self, event: LedgerEventView) -> LedgerView {
        LedgerView {
            revisions: self.revisions.insert(event.sys.version, event),
            latest: self.latest.insert(event.sys.id, event.sys.version),
            height: self.height.insert(
                event.sys.version,
                match event.sys.previous_version {
                    Some(p) => self.height[p] + 1,
                    None => 0,
                },
            ),
        }
    }

    /// Whether a document may be pointed at a version, and why not.
    pub open spec fn admits_pointer(self, id: Seq<char>, version: Seq<char>) -> Result<
        (),
        StoreError,
    > {
        if !self.revisions.contains_key(version) {
            Err(StoreError::NotFound)
        } else if self.revisions[version].sys.id != id {
            Err(StoreError::WrongDocument)
        } else {
            Ok(())
        }
    }

    /// The store after a document has been pointed at a version.
    pub open spec fn repoint(self, id: Seq<char>, version: Seq<char>) -> LedgerView {
        LedgerView { latest: self.latest.insert(id, version), ..self }
    }
}

/// Taking an acceptable event keeps the invariant.
pub proof fn lemma_put_keeps_wf(s: LedgerView, event: LedgerEventView)
    requires
        s.wf(),
        s.accepts(event) is Ok,
    ensures
        s.put(event).wf(),
{
    let t = s.put(event);
    assert forall|v: Seq<char>| #[trigger] t.revisions.contains_key(v) implies t.height.contains_key(
        v,
    ) && (match t.revisions[v].sys.previous_version {
        Some(p) => t.revisions.contains_key(p) && t.height[v] == t.height[p] + 1,
        None => t.height[v] == 0,
    }) by {
        if v != event.sys.version {
            assert(s.revisions.contains_key(v));
        }
    }
    assert forall|id: Seq<char>| #[trigger] t.latest.contains_key(id) implies t.revisions.contains_key(
        t.latest[id],
    ) && t.revisions[t.latest[id]].sys.id == id by {
        if id != event.sys.id {
            assert(s.latest.contains_key(id));
        }
    }
    assert forall|v: Seq<char>| #[trigger] t.revisions.contains_key(v) implies t.latest.contains_key(
        t.revisions[v].sys.id,
    ) by {
        if v != event.sys.version {
            assert(s.revisions.contains_key(v));
        }
    }
}

/// Pointing a document at one of its revisions keeps the invariant.
pub proof fn lemma_repoint_keeps_wf(s: LedgerView, id: Seq<char>, version: Seq<char>)
    requires
        s.wf(),
        s.admits_pointer(id, version) is Ok,
    ensures
        s.repoint(id, version).wf(),
{
    let t = s.repoint(id, version);
    assert forall|i: Seq<char>| #[trigger] t.latest.contains_key(i) implies t.revisions.contains_key(
        t.latest[i],
    ) && t.revisions[t.latest[i]].sys.id == i by {
        if i != id {
            assert(s.latest.contains_key(i));
        }
    }
    assert forall|v: Seq<char>| #[trigger] t.revisions.contains_key(v) implies t.latest.contains_key(
        t.revisions[v].sys.id,
    ) by {
        assert(s.revisions.contains_key(v));
    }
}

/// The views of a sequence of events, in their order.
pub open spec fn views(events: Seq<LedgerEvent<String>>) -> Seq<LedgerEventView> {
    events.map_values(|e: LedgerEvent<String>| e@)
}

/// The view of an optional event.
pub open spec fn view_of(event: Option<LedgerEvent<String>>) -> Option<LedgerEventView> {
    match event {
        Some(e) => Some(e@),
        None => None,
    }
}

/// The mathematical value of what a store keeps.
spec fn model(
    revisions: Map<Seq<char>, LedgerEvent<String>>,
    latest: Map<Seq<char>, String>,
    height: Map<Seq<char>, nat>,
) -> LedgerView {
    LedgerView {
        revisions: revisions.map_values(|e: LedgerEvent<String>| e@),
        latest: latest.map_values(|v: String| v@),
        height: height,
    }
}

/// The versioned store. It keeps the two key spaces of the ledger's layout,
/// version to revision and document id to latest version, and changes both
/// together. A store is well formed at all times: no function asks its
/// caller for that, and every function that hands out a store or changes
/// one says so.
pub struct LmdbContext {
    revisions: StringHashMap<LedgerEvent<String>>,
    latest: StringHashMap<String>,
    height: Ghost<Map<Seq<char>, nat>>,
}

impl View for LmdbContext {
    type V = LedgerView;

    closed spec fn view(&self) -> LedgerView {
        model(self.revisions@, self.latest@, self.height@)
    }
}

/// Opens a store that holds nothing.
pub fn create_context() -> (context: Option<LmdbContext>)
    ensures
        context is Some,
        context->0@ == LedgerView::empty(),
        context->0.wf(),
{
    Some(LmdbContext::vacant())
}

impl LmdbContext {
    #[verifier::type_invariant]
    spec fn well_formed(self) -> bool {
        self@.wf()
    }

    /// The invariant that holds of every store.
    pub open spec fn wf(&self) -> bool {
        self@.wf()
    }

    /// A store that holds nothing.
    fn vacant() -> (store: LmdbContext)
        ensures
            store@ == LedgerView::empty(),
    {
        let revisions: StringHashMap<LedgerEvent<String>> = StringHashMap::new();
        let latest: StringHashMap<String> = StringHashMap::new();
        let ghost height: Map<Seq<char>, nat> = Map::empty();
        proof {
            assert(model(revisions@, latest@, height).revisions =~= Map::empty());
            assert(model(revisions@, latest@, height).latest =~= Map::empty());
        }
        LmdbContext { revisions, latest, height: Ghost(height) }
    }

    /// Looks up the version that the document `key` points at.
    pub fn get(&self, key: &str) -> (found: Result<String, StoreError>)
        ensures
            self.wf(),
            match found {
                Ok(version) => self@.latest_version(key@) == Some(version@),
                Err(e) => e == StoreError::NotFound && self@.latest_version(key@) is None,
            },
    {
        proof {
            use_type_invariant(self);
        }
        match self.latest.get(key) {
            Some(version) => Ok(version.clone()),
            None => Err(StoreError::NotFound),
        }
    }

    /// Points the document `key` at the revision stored under `value`. The
    /// revision must be stored and belong to that document; otherwise nothing
    /// changes.
    pub fn set(&mut self, key: &str, value: &str) -> (done: Result<(), StoreError>)
        ensures
            final(self).wf(),
            done == old(self)@.admits_pointer(key@, value@),
            done is Ok ==> final(self)@ == old(self)@.repoint(key@, value@),
            done is Err ==> final(self)@ == old(self)@,
    {
        proof {
            use_type_invariant(&*self);
        }
        let id = key.to_owned();
        let belongs = match self.revisions.get(value) {
            Some(event) => Some(event.sys.id == id),
            None => None,
        };
        match belongs {
            None => Err(StoreError::NotFound),
            Some(false) => Err(StoreError::WrongDocument),
            Some(true) => {
                let ghost before = self@;
                let mut taken = LmdbContext::vacant();
                std::mem::swap(self, &mut taken);
                let LmdbContext { revisions, mut latest, height } = taken;
                latest.insert(id, value.to_owned());
                proof {
                    let after = model(revisions@, latest@, height@);
                    assert(after.latest =~= before.latest.insert(key@, value@));
                    assert(after == before.repoint(key@, value@));
                    lemma_repoint_keeps_wf(before, key@, value@);
                }
                *self = LmdbContext { revisions, latest, height };
                Ok(())
            },
        }
    }

    /// The revision stored under a version, if there is one.
    pub fn get_by_version(&self, version: &str) -> (found: Option<LedgerEvent<String>>)
        ensures
            self.wf(),
            view_of(found) == self@.get_by_version(version@),
    {
        proof {
            use_type_invariant(self);
        }
        match self.revisions.get(version) {
            Some(event) => Some(event.clone()),
            None => None,
        }
    }

    /// The latest revision of the document `key`, if the document is known.
    pub fn get_latest(&self, key: &str) -> (found: Option<LedgerEvent<String>>)
        ensures
            self.wf(),
            view_of(found) == self@.get_latest(key@),
    {
        match self.latest.get(key) {
            Some(version) => self.get_by_version(version.as_str()),
            None => {
                proof {
                    use_type_invariant(self);
                }
                None
            },
        }
    }

    /// The latest revision of the document that the revision under `version`
    /// belongs to.
    pub fn get_latest_by_version(&self, version: &str) -> (found: Option<LedgerEvent<String>>)
        ensures
            self.wf(),
            view_of(found) == self@.get_latest_by_version(version@),
    {
        match self.revisions.get(version) {
            Some(event) => self.get_latest(event.sys.id.as_str()),
            None => {
                proof {
                    use_type_invariant(self);
                }
                None
            },
        }
    }

    /// Walks the links from the revision under `version` towards the first
    /// revision. The result starts with that revision and holds at most
    /// `limit` earlier ones after it, the nearest first. The walk ends early
    /// where a version is not stored.
    pub fn get_previous(&self, version: &str, limit: u8) -> (walk: Vec<LedgerEvent<String>>)
        ensures
            self.wf(),
            views(walk@) == self@.chain(version@, limit as nat + 1),
    {
        proof {
            use_type_invariant(self);
        }
        let mut walk: Vec<LedgerEvent<String>> = Vec::new();
        let mut cursor: Option<String> = Some(version.to_owned());
        let mut left: u16 = limit as u16 + 1;
        assert(views(walk@) =~= Seq::empty());
        while left > 0 && cursor.is_some()
            invariant
                views(walk@) + self@.chain_from(crate::domain::text_of(cursor), left as nat)
                    == self@.chain(version@, limit as nat + 1),
            decreases left,
        {
            let ghost before = views(walk@);
            let at: &String = cursor.as_ref().unwrap();
            match self.revisions.get(at.as_str()) {
                Some(event) => {
                    let next = copy_text(&event.sys.previous_version);
                    walk.push(event.clone());
                    assert(views(walk@) =~= before + seq![event@]);
                    assert(self@.chain(at@, left as nat) =~= seq![event@] + self@.chain_from(
                        crate::domain::text_of(next),
                        (left - 1) as nat,
                    ));
                    cursor = next;
                    left = left - 1;
                },
                None => {
                    cursor = None;
                    left = left - 1;
                },
            }
        }
        walk
    }

    /// Takes an event as the new latest revision of its document: the
    /// revision is written under its version and the document's pointer is
    /// moved to it, both or neither. A version that is already stored is
    /// refused, and so is a link to a version that is not stored.
    pub fn set_event(&mut self, event: &LedgerEvent<String>) -> (done: Result<(), StoreError>)
        ensures
            final(self).wf(),
            done == old(self)@.accepts(event@),
            done is Ok ==> final(self)@ == old(self)@.put(event@),
            done is Err ==> final(self)@ == old(self)@,
    {
        proof {
            use_type_invariant(&*self);
        }
        if self.revisions.contains_key(event.sys.version.as_str()) {
            return Err(StoreError::KeyExists);
        }
        let linked = match &event.sys.previous_version {
            Some(previous) => self.revisions.contains_key(previous.as_str()),
            None => true,
        };
        if !linked {
            return Err(StoreError::BrokenLink);
        }
        let ghost before = self@;
        let mut taken = LmdbContext::vacant();
        std::mem::swap(self, &mut taken);
        let LmdbContext { mut revisions, mut latest, height } = taken;
        revisions.insert(event.sys.version.clone(), event.clone());
        latest.insert(event.sys.id.clone(), event.sys.version.clone());
        let ghost risen = before.put(event@).height;
        proof {
            let after = model(revisions@, latest@, risen);
            assert(after.revisions =~= before.put(event@).revisions);
            assert(after.latest =~= before.put(event@).latest);
            assert(after == before.put(event@));
            lemma_put_keeps_wf(before, event@);
        }
        *self = LmdbContext { revisions, latest, height: Ghost(risen) };
        Ok(())
    }
}

/// The keys of an event in a log that is kept by event: the id of the event,
/// and that id joined to the version of the revision by a bar.
pub fn keys(event: &LedgerEvent<String>) -> (pair: (String, String))
    ensures
        pair.0@ == event@.event_id,
        pair.1@ == event@.event_id + "|"@ + event@.sys.version,
{
    let mut revision_key = event.event_id.clone();
    revision_key.append("|");
    revision_key.append(event.sys.version.as_str());
    (event.event_id.clone(), revision_key)
}

} // verus!
