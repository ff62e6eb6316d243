//! The per-authority ledger: serial allocation and the issuance engine.

use vstd::prelude::*;
use crate::catalog::{spec_issuer, spec_profile, CaIdentity, CertKind, ClusterSettings, Profile};
use crate::error::PkiError;
use crate::layout::{leaf_location, spec_cert_path, spec_leaf_dir, spec_leaf_name, Location};
use crate::text::same_text;

verus! {

/// One certificate that an authority has issued.
#[derive(Clone, Debug)]
pub struct Issued {
    pub cert_path: String,
    pub serial: u64,
}

/// The state of one authority: its counter, which holds the last serial handed
/// out (0 before the first), and the certificates issued so far, in order.
#[derive(Clone, Debug)]
pub struct CaLedger {
    pub identity: CaIdentity,
    pub counter: u64,
    pub issued: Vec<Issued>,
}

/// Everything the engine hands to the signer for one leaf.
#[derive(Clone, Debug)]
pub struct IssueOrder {
    pub profile: Profile,
    pub serial: u64,
    pub location: Location,
}

pub open spec fn is_recorded(issued: Seq<Issued>, path: Seq<char>) -> bool {
    exists|i: int| 0 <= i < issued.len() && (#[trigger] issued[i]).cert_path@ == path
}

/// A serial was handed out: one past the counter, which then holds it.
/// Serials are therefore positive.
pub open spec fn allocated(before: CaLedger, after: CaLedger, serial: u64) -> bool {
    &&& serial == before.counter + 1
    &&& after.counter == serial
}

/// The cert path of a kind's canonical location.
pub open spec fn spec_leaf_cert_path(kind: CertKind) -> Seq<char> {
    spec_cert_path(spec_leaf_dir(kind), spec_leaf_name(kind))
}

/// Why a request must be refused, checked in this order; `None` when it may go on.
pub open spec fn issue_refusal(
    l: CaLedger,
    kind: CertKind,
    target_present: bool,
    overwrite: bool,
) -> Option<PkiError> {
    if l.identity != spec_issuer(kind) {
        Some(PkiError::MissingIssuer)
    } else if !overwrite && (target_present || is_recorded(
        l.issued@,
        spec_leaf_cert_path(kind),
    )) {
        Some(PkiError::AlreadyExists)
    } else if l.counter == u64::MAX {
        Some(PkiError::SerialExhausted)
    } else {
        None
    }
}

/// A request that went through: what `issue` promises of its order and of
/// the ledger after it.
pub open spec fn issued_ok(
    before: CaLedger,
    after: CaLedger,
    kind: CertKind,
    settings: ClusterSettings,
    target_present: bool,
    overwrite: bool,
    o: IssueOrder,
) -> bool {
    &&& issue_refusal(before, kind, target_present, overwrite) is None
    &&& o.profile@ == spec_profile(kind, settings)
    &&& o.location.dir@ == spec_leaf_dir(kind)
    &&& o.location.name@ == spec_leaf_name(kind)
    &&& allocated(before, after, o.serial)
    &&& after.identity == before.identity
    &&& after.issued@.len() == before.issued@.len() + 1
    &&& after.issued@.drop_last() == before.issued@
    &&& after.issued@.last().cert_path@ == spec_leaf_cert_path(kind)
    &&& after.issued@.last().serial == o.serial
}

impl CaLedger {
    /// Every recorded serial is positive and at most the counter, in strictly
    /// increasing order.
    pub open spec fn wf(&self) -> bool {
        &&& forall|i: int|
            0 <= i < self.issued@.len() ==> 0 < #[trigger] self.issued@[i].serial <= self.counter
        &&& forall|i: int, j: int|
            0 <= i < j < self.issued@.len() ==> #[trigger] self.issued@[i].serial
                < #[trigger] self.issued@[j].serial
    }

    /// A freshly created authority: counter at zero, nothing issued.
    pub fn new(identity: CaIdentity) -> (r: CaLedger)
        ensures
            r.wf(),
            r.identity == identity,
            r.counter == 0,
            r.issued@.len() == 0,
    {
        CaLedger { identity, counter: 0, issued: Vec::new() }
    }

    /// An authority whose counter was read back from storage.
    pub fn open(identity: CaIdentity, counter: u64) -> (r: CaLedger)
        ensures
            r.wf(),
            r.identity == identity,
            r.counter == counter,
            r.issued@.len() == 0,
    {
        CaLedger { identity, counter, issued: Vec::new() }
    }

    /// Hands out the next unused serial, one past the counter, and stores it
    /// as the counter; fails only when the counter is at its largest value.
    pub fn next_serial(&mut self) -> (r: Result<u64, PkiError>)
        requires
            old(self).wf(),
        ensures
            final(self).wf(),
            final(self).identity == old(self).identity,
            final(self).issued@ == old(self).issued@,
            old(self).counter == u64::MAX <==> r is Err,
            match r {
                Ok(s) => allocated(*old(self), *final(self), s),
                Err(e) => e == PkiError::SerialExhausted && *final(self) == *old(self),
            },
    {
        if self.counter == u64::MAX {
            return Err(PkiError::SerialExhausted);
        }
        let s = self.counter + 1;
        self.counter = s;
        Ok(s)
    }

    /// Whether a certificate was issued at `path`.
    pub fn records(&self, path: &String) -> (r: bool)
        ensures
            r == is_recorded(self.issued@, path@),
    {
        let mut i: usize = 0;
        while i < self.issued.len()
            invariant
                i <= self.issued@.len(),
                forall|k: int| 0 <= k < i ==> (#[trigger] self.issued@[k]).cert_path@ != path@,
            decreases self.issued@.len() - i,
        {
            if same_text(self.issued[i].cert_path.as_str(), path.as_str()) {
                return true;
            }
            i += 1;
        }
        false
    }
    /// Resolves the profile of `kind`, allocates its serial from this
    /// authority and records its path. A target that exists, on storage
    /// (`target_present`) or in this ledger, is refused unless `overwrite`.
    /// On any refusal the ledger is left as it was.
    pub fn issue(
        &mut self,
        kind: &CertKind,
        settings: &ClusterSettings,
        target_present: bool,
        overwrite: bool,
    ) -> (r: Result<IssueOrder, PkiError>)
        requires
            old(self).wf(),
        ensures
            final(self).wf(),
            match r {
                Ok(o) => issued_ok(*old(self), *final(self), *kind, *settings, target_present, overwrite, o),
                Err(e) => {
                    &&& issue_refusal(*old(self), *kind, target_present, overwrite) == Some(e)
                    &&& *final(self) == *old(self)
                },
            },
    {
        if self.identity != kind.issuer() {
            return Err(PkiError::MissingIssuer);
        }
        let location = leaf_location(kind);
        let cert_path = location.cert_path();
        if !overwrite && (target_present || self.records(&cert_path)) {
            return Err(PkiError::AlreadyExists);
        }
        let profile = kind.resolve(settings);
        let serial = match self.next_serial() {
            Ok(s) => s,
            Err(e) => return Err(e),
        };
        self.issued.push(Issued { cert_path, serial });
        assert(self.issued@.drop_last() =~= old(self).issued@);
        Ok(IssueOrder { profile, serial, location })
    }
}

proof fn lemma_counter_monotone(states: Seq<CaLedger>, serials: Seq<u64>, a: int, b: int)
    requires
        states.len() == serials.len() + 1,
        forall|i: int|
            0 <= i < serials.len() ==> #[trigger] allocated(states[i], states[i + 1], serials[i]),
        0 <= a <= b < states.len(),
    ensures
        states[a].counter <= states[b].counter,
    decreases b - a,
{
    if a < b {
        lemma_counter_monotone(states, serials, a, b - 1);
        let k = b - 1;
        assert(allocated(states[k], states[k + 1], serials[k]));
    }
}

/// Over any run of consecutive allocations from one authority (`states[i]`
/// is the ledger before the i-th, `states[i + 1]` after it), the serials
/// handed out are positive and strictly increase, so no two are equal.
pub proof fn serials_strictly_increase(states: Seq<CaLedger>, serials: Seq<u64>)
    requires
        states.len() == serials.len() + 1,
        forall|i: int|
            0 <= i < serials.len() ==> #[trigger] allocated(states[i], states[i + 1], serials[i]),
    ensures
        forall|i: int| 0 <= i < serials.len() ==> 0 < #[trigger] serials[i],
        forall|i: int, j: int| 0 <= i < j < serials.len() ==> serials[i] < serials[j],
{
    assert forall|i: int| 0 <= i < serials.len() implies 0 < #[trigger] serials[i] by {
        assert(allocated(states[i], states[i + 1], serials[i]));
    }
    assert forall|i: int, j: int| 0 <= i < j < serials.len() implies serials[i] < serials[j] by {
        lemma_counter_monotone(states, serials, i + 1, j);
        assert(allocated(states[i], states[i + 1], serials[i]));
        assert(allocated(states[j], states[j + 1], serials[j]));
    }
}

/// Once a kind has been issued, issuing it again on the resulting ledger
/// without overwrite is refused as existing, whatever storage reports; with
/// overwrite it is allowed while the counter can advance, and the new serial
/// is larger than the first.
pub proof fn reissue_requires_overwrite(
    l0: CaLedger,
    l1: CaLedger,
    l2: CaLedger,
    kind: CertKind,
    settings: ClusterSettings,
    present0: bool,
    overwrite0: bool,
    present1: bool,
    o1: IssueOrder,
    o2: IssueOrder,
)
    requires
        issued_ok(l0, l1, kind, settings, present0, overwrite0, o1),
    ensures
        issue_refusal(l1, kind, present1, false) == Some(PkiError::AlreadyExists),
        l1.counter < u64::MAX ==> issue_refusal(l1, kind, present1, true) is None,
        issued_ok(l1, l2, kind, settings, present1, true, o2) ==> o1.serial < o2.serial,
{
    let last = l1.issued@.len() - 1;
    assert(l1.issued@[last].cert_path@ == spec_leaf_cert_path(kind));
    assert(is_recorded(l1.issued@, spec_leaf_cert_path(kind)));
}

} // verus!
