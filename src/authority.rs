//! The three authorities together, each request routed to its signer.

use vstd::prelude::*;
use crate::catalog::{spec_issuer, CaIdentity, CertKind, ClusterSettings};
use crate::error::PkiError;
use crate::ledger::{issue_refusal, issued_ok, CaLedger, IssueOrder};

verus! {

/// The three authorities of a cluster, each with its ledger.
#[derive(Clone, Debug)]
pub struct CA {
    pub main_ca: CaLedger,
    pub etcd_ca: CaLedger,
    pub front_ca: CaLedger,
}

impl CA {
    pub open spec fn wf(&self) -> bool {
        &&& self.main_ca.wf() && self.main_ca.identity == CaIdentity::Root
        &&& self.etcd_ca.wf() && self.etcd_ca.identity == CaIdentity::Etcd
        &&& self.front_ca.wf() && self.front_ca.identity == CaIdentity::FrontProxy
    }

    pub open spec fn ledger(&self, id: CaIdentity) -> CaLedger {
        match id {
            CaIdentity::Root => self.main_ca,
            CaIdentity::Etcd => self.etcd_ca,
            CaIdentity::FrontProxy => self.front_ca,
        }
    }

    /// The authorities as read back from storage, with their counters.
    pub fn open(main_counter: u64, etcd_counter: u64, front_counter: u64) -> (r: CA)
        ensures
            r.wf(),
            r.main_ca.counter == main_counter,
            r.etcd_ca.counter == etcd_counter,
            r.front_ca.counter == front_counter,
    {
        CA {
            main_ca: CaLedger::open(CaIdentity::Root, main_counter),
            etcd_ca: CaLedger::open(CaIdentity::Etcd, etcd_counter),
            front_ca: CaLedger::open(CaIdentity::FrontProxy, front_counter),
        }
    }

    /// Issues `kind` from the authority that signs it; the other two are
    /// left as they were.
    pub fn issue(
        &mut self,
        kind: &CertKind,
        settings: &ClusterSettings,
        target_present: bool,
        overwrite: bool,
    ) -> (r: Result<IssueOrder, PkiError>)
        requires
            old(self).wf(),
        ensures
            final(self).wf(),
            forall|id: CaIdentity|
                id != spec_issuer(*kind) ==> #[trigger] final(self).ledger(id) == old(self).ledger(
                    id,
                ),
            match r {
                Ok(o) => issued_ok(
                    old(self).ledger(spec_issuer(*kind)),
                    final(self).ledger(spec_issuer(*kind)),
                    *kind,
                    *settings,
                    target_present,
                    overwrite,
                    o,
                ),
                Err(e) => {
                    &&& issue_refusal(
                        old(self).ledger(spec_issuer(*kind)),
                        *kind,
                        target_present,
                        overwrite,
                    ) == Some(e)
                    &&& e != PkiError::MissingIssuer
                    &&& *final(self) == *old(self)
                },
            },
    {
        match kind.issuer() {
            CaIdentity::Root => self.main_ca.issue(kind, settings, target_present, overwrite),
            CaIdentity::Etcd => self.etcd_ca.issue(kind, settings, target_present, overwrite),
            CaIdentity::FrontProxy => self.front_ca.issue(kind, settings, target_present, overwrite),
        }
    }
}

} // verus!
