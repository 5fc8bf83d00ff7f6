//! The synchronization gateway: holds the single canonical state, and
//! replaces it wholesale on each accepted submission. Validation runs on
//! the candidate alone; the canonical state changes only on acceptance,
//! and readers always see exactly one previously accepted document —
//! never fields of two submissions.

use vstd::prelude::*;

use crate::errors::ValidationError;
use crate::json::JsonValue;
use crate::model::{global_wf, GlobalState, GlobalV};
use crate::parse::{parse_global_v, validate_document};

verus! {

/// Why a submission was not accepted.
#[derive(Debug)]
pub enum Rejection {
    /// The document failed validation; every failure found is listed.
    Invalid(Vec<ValidationError>),
    /// The gateway does not understand the document's `stateVersion`.
    UnsupportedVersion,
    /// The submission's `nextEntryId` is behind the canonical state's:
    /// the submitter's view predates a later accepted write.
    StaleUpdate,
}

/// Whether `sv` is one of the supported schema versions.
pub open spec fn version_supported(sv: Seq<char>, supported: Seq<Seq<char>>) -> bool {
    exists|i: int| 0 <= i < supported.len() && supported[i] == sv
}

/// The candidate's lineage counter is behind the canonical state's.
pub open spec fn stale(canonical: Option<GlobalV>, cand: GlobalV) -> bool {
    match canonical {
        Some(c) => cand.registration.next_entry_id < c.registration.next_entry_id,
        None => false,
    }
}

/// The acceptance policy over a validated candidate: accepted unless its
/// schema version is unknown or its lineage counter is behind canonical.
pub open spec fn accepts(canonical: Option<GlobalV>, cand: GlobalV, supported: Seq<Seq<char>>) -> bool {
    version_supported(cand.versions.state_version, supported) && !stale(canonical, cand)
}

/// Idempotence of the acceptance policy: a valid document whose schema
/// version is supported and whose lineage counter equals the canonical
/// state's — in particular, the canonical document itself, resubmitted
/// unchanged — is accepted again.
pub proof fn lemma_resubmission_accepted(c: GlobalV, supported: Seq<Seq<char>>)
    requires
        version_supported(c.versions.state_version, supported),
    ensures
        accepts(Some(c), c, supported),
{
}

/// Spec view of the canonical slot.
pub open spec fn canon_v(o: Option<GlobalState>) -> Option<GlobalV> {
    match o {
        Some(g) => Some(g.deep_view()),
        None => None,
    }
}

/// The gateway. The set of understood schema versions is configuration,
/// handed in at construction.
pub struct Gateway {
    pub supported_versions: Vec<String>,
    pub canonical: Option<GlobalState>,
}

impl Gateway {
    /// The supported schema versions, as sequences of characters.
    pub open spec fn supported(&self) -> Seq<Seq<char>> {
        self.supported_versions.deep_view()
    }

    /// A fresh gateway: no canonical state yet.
    pub fn new(supported_versions: Vec<String>) -> (g: Gateway)
        ensures
            g.canonical is None,
            g.supported() == supported_versions.deep_view(),
    {
        Gateway { supported_versions, canonical: None }
    }

    /// The latest accepted canonical snapshot, or `None` before any
    /// submission was accepted.
    pub fn current(&self) -> (r: &Option<GlobalState>)
        ensures
            r == &self.canonical,
    {
        &self.canonical
    }

    fn is_supported(&self, sv: &String) -> (b: bool)
        ensures
            b == version_supported(sv@, self.supported()),
    {
        let mut i: usize = 0;
        while i < self.supported_versions.len()
            invariant
                0 <= i <= self.supported_versions@.len(),
                forall|k: int| 0 <= k < i ==> #[trigger] self.supported()[k] != sv@,
            decreases self.supported_versions@.len() - i,
        {
            proof {
                assert(self.supported()[i as int] == self.supported_versions@[i as int]@);
            }
            if self.supported_versions[i] == *sv {
                return true;
            }
            i = i + 1;
        }
        false
    }

    /// Submits a whole candidate document. The document is validated in
    /// full; on failure every violation found is returned and the
    /// canonical state is untouched. A structurally valid document is
    /// then held to the acceptance policy: an unknown `stateVersion` is
    /// rejected as `UnsupportedVersion`, a `nextEntryId` behind the
    /// canonical one as `StaleUpdate` (last-writer-wins with a staleness
    /// guard, never a silent overwrite of newer data); otherwise the
    /// candidate atomically becomes the canonical state.
    pub fn submit(&mut self, candidate: &JsonValue) -> (r: Result<(), Rejection>)
        ensures
            final(self).supported() == old(self).supported(),
            // a document that does not validate changes nothing
            !(parse_global_v(*candidate) matches Some(gv) && global_wf(gv)) ==> (r matches Err(
                Rejection::Invalid(es),
            ) && es@.len() > 0 && final(self).canonical == old(self).canonical),
            // the policy, over the one reading of a valid candidate
            parse_global_v(*candidate) matches Some(gv) ==> ((global_wf(gv)
                && !version_supported(gv.versions.state_version, old(self).supported()) ==> (r
                matches Err(Rejection::UnsupportedVersion) && final(self).canonical == old(
                self,
            ).canonical)) && (global_wf(gv) && version_supported(
                gv.versions.state_version,
                old(self).supported(),
            ) && stale(canon_v(old(self).canonical), gv) ==> (r matches Err(Rejection::StaleUpdate)
                && final(self).canonical == old(self).canonical)) && (global_wf(gv) && accepts(
                canon_v(old(self).canonical),
                gv,
                old(self).supported(),
            ) ==> (r is Ok && canon_v(final(self).canonical) == Some(gv))) && (r is Ok ==> (
            global_wf(gv) && accepts(canon_v(old(self).canonical), gv, old(self).supported())))),
            r is Ok ==> parse_global_v(*candidate) is Some,
            // atomicity at the model level: afterwards the canonical state
            // is the old one or exactly the candidate, never a mixture
            final(self).canonical == old(self).canonical || canon_v(final(self).canonical)
                == parse_global_v(*candidate),
            // the lineage counter of the canonical state never decreases
            canon_v(old(self).canonical) matches Some(c) ==> (canon_v(final(self).canonical)
                matches Some(n) && n.registration.next_entry_id
                >= c.registration.next_entry_id),
            // the canonical state only ever holds well-formed documents
            (canon_v(old(self).canonical) matches Some(c) && global_wf(c)) ==> (canon_v(
                final(self).canonical) matches Some(n) && global_wf(n)),
    {
        match validate_document(candidate) {
            Err(es) => Err(Rejection::Invalid(es)),
            Ok(g) => {
                if !self.is_supported(&g.versions.state_version) {
                    Err(Rejection::UnsupportedVersion)
                } else {
                    let stale = match &self.canonical {
                        Some(c) => g.registration.next_entry_id < c.registration.next_entry_id,
                        None => false,
                    };
                    if stale {
                        Err(Rejection::StaleUpdate)
                    } else {
                        self.canonical = Some(g);
                        Ok(())
                    }
                }
            },
        }
    }
}

} // verus!
