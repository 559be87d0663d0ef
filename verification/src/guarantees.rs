//! What holds of every step of the ledger, proved of `step`, the function
//! that `apply` computes.

use vstd::prelude::*;

use crate::checksum::StampView;
use crate::domain::{ActionView, LedgerCommandView, LedgerEventView, RevisionView};
use crate::lmdb_store::{lemma_put_keeps_wf, LedgerView};
use crate::processor::{base_of, gate, source_of, step, target_id, FreshIdsView, RejectReason};

verus! {

/// The version of an optional revision.
pub open spec fn version_of(revision: Option<LedgerEventView>) -> Option<Seq<char>> {
    match revision {
        Some(e) => Some(e.sys.version),
        None => None,
    }
}

/// Every step keeps the invariant of the store.
pub proof fn step_keeps_store_well_formed(
    s: LedgerView,
    command: LedgerCommandView,
    now: Seq<char>,
    fresh: FreshIdsView,
    stamp: StampView,
)
    requires
        s.wf(),
    ensures
        step(s, command, now, fresh, stamp).0.wf(),
{
    let outcome = step(s, command, now, fresh, stamp).1;
    if outcome is Ok {
        lemma_put_keeps_wf(s, outcome->Ok_0);
    }
}

/// A rejected command changes nothing in the store.
pub proof fn rejection_changes_nothing(
    s: LedgerView,
    command: LedgerCommandView,
    now: Seq<char>,
    fresh: FreshIdsView,
    stamp: StampView,
)
    requires
        step(s, command, now, fresh, stamp).1 is Err,
    ensures
        step(s, command, now, fresh, stamp).0 == s,
{
}

/// Revisions are written once: no step changes or drops a revision that
/// the store holds.
pub proof fn revisions_are_written_once(
    s: LedgerView,
    command: LedgerCommandView,
    now: Seq<char>,
    fresh: FreshIdsView,
    stamp: StampView,
    version: Seq<char>,
)
    requires
        s.revisions.contains_key(version),
    ensures
        step(s, command, now, fresh, stamp).0.get_by_version(version) == s.get_by_version(version),
{
}

/// No version is used twice: the event of an accepted command carries the
/// identifiers that were drawn for it, and the store held no revision under
/// its version before.
pub proof fn accepted_version_is_new(
    s: LedgerView,
    command: LedgerCommandView,
    now: Seq<char>,
    fresh: FreshIdsView,
    stamp: StampView,
)
    requires
        step(s, command, now, fresh, stamp).1 is Ok,
    ensures
        ({
            let (t, outcome) = step(s, command, now, fresh, stamp);
            let event = outcome->Ok_0;
            &&& event.event_id == fresh.event_id
            &&& event.sys.version == fresh.revision.version
            &&& !s.revisions.contains_key(event.sys.version)
            &&& t.get_by_version(event.sys.version) == Some(event)
        }),
{
}

/// Chain integrity. After an accepted command the latest revision of the
/// event's document is the event itself, and its link names the version that
/// was the document's latest before. A copy under an id that no document
/// had is left out here: it starts a document, and is linked to its source
/// (see `copy_is_linked_to_its_source`).
pub proof fn accepted_revision_follows_latest(
    s: LedgerView,
    command: LedgerCommandView,
    now: Seq<char>,
    fresh: FreshIdsView,
    stamp: StampView,
)
    requires
        s.wf(),
        step(s, command, now, fresh, stamp).1 is Ok,
        !(command.action is COPY && s.get_latest(fresh.revision.id) is None),
    ensures
        ({
            let (t, outcome) = step(s, command, now, fresh, stamp);
            let event = outcome->Ok_0;
            &&& event.sys.id == target_id(command.action, fresh)
            &&& t.get_latest(event.sys.id) == Some(event)
            &&& event.sys.previous_version == version_of(s.get_latest(event.sys.id))
        }),
{
}

/// An accepted copy under an id that no document had starts a document
/// there, whose first revision is linked to the source of the copy and is
/// neither sealed nor published.
pub proof fn copy_is_linked_to_its_source(
    s: LedgerView,
    command: LedgerCommandView,
    now: Seq<char>,
    fresh: FreshIdsView,
    stamp: StampView,
)
    requires
        s.wf(),
        command.action is COPY,
        s.get_latest(fresh.revision.id) is None,
        step(s, command, now, fresh, stamp).1 is Ok,
    ensures
        ({
            let (t, outcome) = step(s, command, now, fresh, stamp);
            let event = outcome->Ok_0;
            &&& event.sys.id == fresh.revision.id
            &&& t.get_latest(fresh.revision.id) == Some(event)
            &&& event.sys.previous_version == Some(command.action.reference()->0.version)
            &&& !event.sys.sealed()
            &&& event.sys.published_version is None
            &&& s.revisions.contains_key(command.action.reference()->0.version)
        }),
{
}

/// When a command is owed success. A command that makes a document under an
/// id that no document has, a copy of a stored revision of the document it
/// names with a payload of the same checksum, and a command against a
/// document that is not sealed, under the document's latest version: each
/// is accepted, if its payload can be committed and the version drawn for it
/// is not in the store.
pub proof fn legal_command_is_accepted(
    s: LedgerView,
    command: LedgerCommandView,
    now: Seq<char>,
    fresh: FreshIdsView,
    stamp: StampView,
)
    requires
        s.wf(),
        !(stamp is Unreadable),
        !s.revisions.contains_key(fresh.revision.version),
        match command.action {
            ActionView::CREATE { .. } => s.get_latest(fresh.revision.id) is None,
            ActionView::COPY(reference) => {
                &&& s.get_latest(fresh.revision.id) is None
                &&& s.get_by_version(reference.version) is Some
                &&& s.get_by_version(reference.version)->0.sys.id == reference.id
                &&& s.get_by_version(reference.version)->0.sys.payload_checksum
                    == stamp.checksum()
            },
            _ => {
                let reference = command.action.reference()->0;
                &&& s.get_latest(reference.id) is Some
                &&& s.get_latest(reference.id)->0.sys.version == reference.version
                &&& !s.get_latest(reference.id)->0.sys.sealed()
            },
        },
    ensures
        step(s, command, now, fresh, stamp).1 is Ok,
{
    if !(command.action is CREATE) && !(command.action is COPY) {
        let reference = command.action.reference()->0;
        assert(s.latest.contains_key(reference.id));
        assert(s.revisions.contains_key(reference.version));
    }
}

/// In a well-formed store the latest revision of a document belongs to the
/// document: no update, delete or seal is ever rejected for an id mismatch.
pub proof fn id_mismatch_is_unreachable(
    s: LedgerView,
    command: LedgerCommandView,
    now: Seq<char>,
    fresh: FreshIdsView,
    stamp: StampView,
)
    requires
        s.wf(),
        command.action is UPDATE || command.action is DELETE || command.action is SEAL,
    ensures
        step(s, command, now, fresh, stamp).1 != Err::<LedgerEventView, _>(
            RejectReason::IdMismatch,
        ),
{
    let reference = command.action.reference()->0;
    if s.get_latest(reference.id) is Some {
        assert(s.latest.contains_key(reference.id));
    }
}

/// A command that names a version other than the latest of its document is
/// rejected for that, whatever else holds of the document, and changes
/// nothing.
pub proof fn stale_version_is_rejected(
    s: LedgerView,
    command: LedgerCommandView,
    now: Seq<char>,
    fresh: FreshIdsView,
    stamp: StampView,
)
    requires
        command.action is UPDATE || command.action is DELETE || command.action is SEAL,
        s.get_latest(command.action.reference()->0.id) is Some,
        s.get_latest(command.action.reference()->0.id)->0.sys.version
            != command.action.reference()->0.version,
    ensures
        step(s, command, now, fresh, stamp) == (s, Err::<LedgerEventView, _>(
            RejectReason::OptimisticLockFailure,
        )),
{
}

/// A command against a sealed document that names its latest version is
/// rejected because the document is sealed, and changes nothing.
pub proof fn sealed_document_is_rejected(
    s: LedgerView,
    command: LedgerCommandView,
    now: Seq<char>,
    fresh: FreshIdsView,
    stamp: StampView,
)
    requires
        s.wf(),
        command.action is UPDATE || command.action is DELETE || command.action is SEAL,
        s.get_latest(command.action.reference()->0.id) is Some,
        s.get_latest(command.action.reference()->0.id)->0.sys.version
            == command.action.reference()->0.version,
        s.get_latest(command.action.reference()->0.id)->0.sys.sealed(),
    ensures
        step(s, command, now, fresh, stamp) == (s, Err::<LedgerEventView, _>(
            RejectReason::DocumentSealed,
        )),
{
}

/// An accepted seal leaves its document sealed.
pub proof fn seal_leaves_document_sealed(
    s: LedgerView,
    command: LedgerCommandView,
    now: Seq<char>,
    fresh: FreshIdsView,
    stamp: StampView,
)
    requires
        s.wf(),
        command.action is SEAL,
        step(s, command, now, fresh, stamp).1 is Ok,
    ensures
        ({
            let t = step(s, command, now, fresh, stamp).0;
            let id = command.action.reference()->0.id;
            t.get_latest(id) is Some && t.get_latest(id)->0.sys.sealed()
        }),
{
}

/// Sealing is final: no step, whatever its command, gives a sealed document
/// another latest revision.
pub proof fn sealed_document_stays_as_it_is(
    s: LedgerView,
    id: Seq<char>,
    command: LedgerCommandView,
    now: Seq<char>,
    fresh: FreshIdsView,
    stamp: StampView,
)
    requires
        s.wf(),
        s.get_latest(id) is Some,
        s.get_latest(id)->0.sys.sealed(),
    ensures
        step(s, command, now, fresh, stamp).0.get_latest(id) == s.get_latest(id),
{
    let (t, outcome) = step(s, command, now, fresh, stamp);
    if outcome is Ok {
        let event = outcome->Ok_0;
        assert(s.latest.contains_key(id));
        assert(s.revisions.contains_key(s.latest[id]));
        assert(event.sys.id == target_id(command.action, fresh));
        assert(event.sys.id != id);
    }
}

/// A copy whose payload does not have the checksum recorded for the
/// revision it is checked against is rejected for that, and makes no
/// document. The revision is the source that the command names or, where
/// the drawn id is taken, the latest revision there, once it has passed the
/// checks that come before.
pub proof fn copy_with_wrong_checksum_is_rejected(
    s: LedgerView,
    command: LedgerCommandView,
    now: Seq<char>,
    fresh: FreshIdsView,
    stamp: StampView,
)
    requires
        command.action is COPY,
        ({
            let reference: RevisionView = command.action.reference()->0;
            let current = s.get_latest(fresh.revision.id);
            let base = base_of(command.action, current, source_of(s, command.action));
            &&& base is Some
            &&& current is Some ==> gate(base->0.sys, reference) is None
            &&& current is None ==> base->0.sys.id == reference.id
            &&& base->0.sys.payload_checksum != stamp.checksum()
        }),
    ensures
        step(s, command, now, fresh, stamp) == (s, Err::<LedgerEventView, _>(
            RejectReason::ChecksumMismatch,
        )),
{
}

/// The shape of a walk from a stored version that has fuel enough to reach
/// the first revision.
pub proof fn lemma_walk_reaches_first_revision(s: LedgerView, version: Seq<char>, fuel: nat)
    requires
        s.wf(),
        s.revisions.contains_key(version),
        fuel > s.height[version],
    ensures
        s.chain(version, fuel).len() == s.height[version] + 1,
        s.chain(version, fuel)[0] == s.revisions[version],
        forall|i: int|
            0 <= i <= s.height[version] ==> s.revisions.contains_key(
                #[trigger] s.chain(version, fuel)[i].sys.version,
            ) && s.height[s.chain(version, fuel)[i].sys.version] == s.height[version] - i,
        s.chain(version, fuel).last().sys.previous_version is None,
        s.chain(version, fuel) == s.chain(version, s.height[version] + 1),
    decreases fuel,
{
    let head = s.revisions[version];
    match head.sys.previous_version {
        Some(p) => {
            lemma_walk_reaches_first_revision(s, p, (fuel - 1) as nat);
            lemma_walk_reaches_first_revision(s, p, s.height[p] + 1);
            let rest = s.chain(p, (fuel - 1) as nat);
            let walk = s.chain(version, fuel);
            assert(walk == seq![head] + rest);
            assert forall|i: int| 0 <= i <= s.height[version] implies s.revisions.contains_key(
                #[trigger] walk[i].sys.version,
            ) && s.height[walk[i].sys.version] == s.height[version] - i by {
                if i > 0 {
                    assert(walk[i] == rest[i - 1]);
                }
            }
            assert(walk.last() == rest.last());
            assert(s.chain(version, s.height[version] + 1) == seq![head] + s.chain(
                p,
                s.height[p] + 1,
            ));
        },
        None => {},
    }
}

/// No cycles. The walk from the latest revision of any document ends at a
/// revision without a link, after as many steps as the latest revision lies
/// high, and passes no version twice; more fuel does not make it longer.
pub proof fn lineage_ends_at_first_revision(s: LedgerView, id: Seq<char>, fuel: nat)
    requires
        s.wf(),
        s.latest.contains_key(id),
        fuel > s.height[s.latest[id]],
    ensures
        ({
            let walk = s.chain(s.latest[id], fuel);
            &&& walk.len() == s.height[s.latest[id]] + 1
            &&& Some(walk[0]) == s.get_latest(id)
            &&& walk.last().sys.previous_version is None
            &&& forall|i: int, j: int|
                0 <= i < j < walk.len() ==> #[trigger] walk[i].sys.version
                    != #[trigger] walk[j].sys.version
        }),
{
    let v = s.latest[id];
    lemma_walk_reaches_first_revision(s, v, fuel);
    let walk = s.chain(v, fuel);
    assert forall|i: int, j: int| 0 <= i < j < walk.len() implies #[trigger] walk[i].sys.version
        != #[trigger] walk[j].sys.version by {
        assert(s.height[walk[i].sys.version] == s.height[v] - i);
        assert(s.height[walk[j].sys.version] == s.height[v] - j);
    }
}

/// A walk can be resumed. A walk that was cut short by its fuel goes on from
/// the link of its last revision: the two parts together are the walk with
/// the fuel of both.
pub proof fn walk_can_be_resumed(s: LedgerView, version: Seq<char>, first: nat, more: nat)
    requires
        first > 0,
        s.chain(version, first).len() == first,
    ensures
        s.chain(version, first + more) == s.chain(version, first) + s.chain_from(
            s.chain(version, first).last().sys.previous_version,
            more,
        ),
    decreases first,
{
    let head = s.revisions[version];
    match head.sys.previous_version {
        Some(p) => {
            if first == 1 {
                assert(s.chain(p, 0) =~= Seq::empty());
                assert(s.chain(version, first) =~= seq![head]);
            } else {
                let rest = s.chain(p, (first - 1) as nat);
                assert(s.chain(version, first) =~= seq![head] + rest);
                assert(rest.len() == first - 1);
                walk_can_be_resumed(s, p, (first - 1) as nat, more);
                assert(s.chain(version, first).last() == rest.last());
                assert(s.chain(version, first + more) =~= seq![head] + s.chain(
                    p,
                    (first - 1 + more) as nat,
                ));
            }
        },
        None => {
            assert(s.chain(version, first) =~= seq![head]);
        },
    }
}

/// The whole walk from a version down to a first revision.
pub open spec fn lineage(s: LedgerView, version: Seq<char>) -> Seq<LedgerEventView> {
    s.chain(version, s.height[version] + 1)
}

/// Every revision is reached from the latest revision of its document.
pub open spec fn lineages_are_complete(s: LedgerView) -> bool {
    forall|v: Seq<char>| #[trigger]
        s.revisions.contains_key(v) ==> lineage(s, s.latest[s.revisions[v].sys.id]).contains(
            s.revisions[v],
        )
}

/// A new revision leaves the walks from the versions that were there as
/// they were.
pub proof fn lemma_put_keeps_walks(s: LedgerView, event: LedgerEventView, version: Seq<char>, fuel: nat)
    requires
        s.wf(),
        s.accepts(event) is Ok,
        s.revisions.contains_key(version),
    ensures
        s.put(event).chain(version, fuel) == s.chain(version, fuel),
    decreases fuel,
{
    if fuel > 0 {
        match s.revisions[version].sys.previous_version {
            Some(p) => {
                lemma_put_keeps_walks(s, event, p, (fuel - 1) as nat);
            },
            None => {},
        }
    }
}

/// In the store that holds nothing every revision is reached.
pub proof fn empty_store_is_complete()
    ensures
        LedgerView::empty().wf(),
        lineages_are_complete(LedgerView::empty()),
{
}

/// Every step keeps the lineages complete: after it, as before it, the walk
/// from the latest revision of a document passes every revision of that
/// document, and by `lineage_ends_at_first_revision` passes it once.
pub proof fn step_keeps_lineages_complete(
    s: LedgerView,
    command: LedgerCommandView,
    now: Seq<char>,
    fresh: FreshIdsView,
    stamp: StampView,
)
    requires
        s.wf(),
        lineages_are_complete(s),
    ensures
        lineages_are_complete(step(s, command, now, fresh, stamp).0),
{
    let (t, outcome) = step(s, command, now, fresh, stamp);
    if outcome is Ok {
        let event = outcome->Ok_0;
        let id = event.sys.id;
        let new = event.sys.version;
        lemma_put_keeps_wf(s, event);
        assert(t.latest[id] == new);
        let whole = lineage(t, new);
        assert(whole[0] == event);
        assert forall|v: Seq<char>| #[trigger] t.revisions.contains_key(v) implies lineage(
            t,
            t.latest[t.revisions[v].sys.id],
        ).contains(t.revisions[v]) by {
            if v == new {
                assert(whole.contains(event));
            } else {
                let r = s.revisions[v];
                assert(s.revisions.contains_key(v));
                assert(s.latest.contains_key(r.sys.id));
                let old_top = s.latest[r.sys.id];
                let old_walk = lineage(s, old_top);
                assert(old_walk.contains(r));
                let at = choose|i: int| 0 <= i < old_walk.len() && old_walk[i] == r;
                if r.sys.id == id {
                    // The document of the event had revisions: the event is
                    // linked to the one that was the latest.
                    assert(s.get_latest(id) is Some);
                    assert(event.sys.previous_version == Some(old_top));
                    lemma_put_keeps_walks(s, event, old_top, s.height[old_top] + 1);
                    assert(t.height[new] == s.height[old_top] + 1);
                    assert(whole =~= seq![event] + old_walk);
                    assert(whole[at + 1] == r);
                } else {
                    lemma_put_keeps_walks(s, event, old_top, s.height[old_top] + 1);
                    assert(lineage(t, old_top) == old_walk);
                }
            }
        }
    }
}

/// What one step is made with: the command, the time, the identifiers drawn
/// for it, and what the examination of its payload gave.
pub struct Input {
    pub command: LedgerCommandView,
    pub now: Seq<char>,
    pub fresh: FreshIdsView,
    pub stamp: StampView,
}

/// The store after a sequence of steps, one after the other.
pub open spec fn run(s: LedgerView, inputs: Seq<Input>) -> LedgerView
    decreases inputs.len(),
{
    if inputs.len() == 0 {
        s
    } else {
        let last = inputs.last();
        step(run(s, inputs.drop_last()), last.command, last.now, last.fresh, last.stamp).0
    }
}

/// Whatever happens to a store that is well formed, it stays well formed,
/// and a sealed document keeps its latest revision.
pub proof fn sealed_document_stays_through_any_run(s: LedgerView, id: Seq<char>, inputs: Seq<Input>)
    requires
        s.wf(),
        s.get_latest(id) is Some,
        s.get_latest(id)->0.sys.sealed(),
    ensures
        run(s, inputs).wf(),
        run(s, inputs).get_latest(id) == s.get_latest(id),
    decreases inputs.len(),
{
    if inputs.len() > 0 {
        let last = inputs.last();
        let before = run(s, inputs.drop_last());
        sealed_document_stays_through_any_run(s, id, inputs.drop_last());
        step_keeps_store_well_formed(before, last.command, last.now, last.fresh, last.stamp);
        sealed_document_stays_as_it_is(before, id, last.command, last.now, last.fresh, last.stamp);
    }
}

/// Once a seal is accepted for a document, every later update of the
/// document that names its latest version is rejected because the document
/// is sealed, whatever was processed in between.
pub proof fn update_after_seal_is_rejected(
    s: LedgerView,
    seal: Input,
    between: Seq<Input>,
    update: Input,
)
    requires
        s.wf(),
        seal.command.action is SEAL,
        step(s, seal.command, seal.now, seal.fresh, seal.stamp).1 is Ok,
        ({
            let id = seal.command.action.reference()->0.id;
            let sealed = step(s, seal.command, seal.now, seal.fresh, seal.stamp).0;
            let later = run(sealed, between);
            update.command.action == ActionView::UPDATE(
                RevisionView { id: id, version: later.get_latest(id)->0.sys.version },
            )
        }),
    ensures
        ({
            let sealed = step(s, seal.command, seal.now, seal.fresh, seal.stamp).0;
            let later = run(sealed, between);
            step(later, update.command, update.now, update.fresh, update.stamp) == (
                later,
                Err::<LedgerEventView, _>(RejectReason::DocumentSealed),
            )
        }),
{
    let id = seal.command.action.reference()->0.id;
    let sealed = step(s, seal.command, seal.now, seal.fresh, seal.stamp).0;
    step_keeps_store_well_formed(s, seal.command, seal.now, seal.fresh, seal.stamp);
    seal_leaves_document_sealed(s, seal.command, seal.now, seal.fresh, seal.stamp);
    sealed_document_stays_through_any_run(sealed, id, between);
    let later = run(sealed, between);
    sealed_document_is_rejected(later, update.command, update.now, update.fresh, update.stamp);
}

/// Whatever is processed, beginning with a store that holds nothing: the
/// store stays well formed, and the walk from the latest revision of every
/// document passes every revision of the document.
pub proof fn every_run_keeps_the_invariants(inputs: Seq<Input>)
    ensures
        run(LedgerView::empty(), inputs).wf(),
        lineages_are_complete(run(LedgerView::empty(), inputs)),
    decreases inputs.len(),
{
    if inputs.len() > 0 {
        let last = inputs.last();
        let before = run(LedgerView::empty(), inputs.drop_last());
        every_run_keeps_the_invariants(inputs.drop_last());
        step_keeps_store_well_formed(before, last.command, last.now, last.fresh, last.stamp);
        step_keeps_lineages_complete(before, last.command, last.now, last.fresh, last.stamp);
    }
}

} // verus!
