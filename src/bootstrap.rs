//! Creating the hierarchy: the root first, then the authorities it signs.

use vstd::prelude::*;
use crate::catalog::{spec_ca_common_name, spec_ca_key_usage, spec_ca_signer, CaIdentity, CaProfile, ClusterSettings, Instance};
use crate::error::PkiError;
use crate::layout::{
    ca_reference, instance_dir, spec_alias_stem, spec_ca_dir, spec_extension, spec_instance_dir,
    spec_part_path, BundlePart, Link,
};
use crate::authority::CA;
use crate::ledger::{allocated, CaLedger};

verus! {

/// Which authorities already hold a bundle on storage.
#[derive(Clone, Copy, Debug, PartialEq, Eq, Structural)]
pub struct Presence {
    pub root: bool,
    pub etcd: bool,
    pub front_proxy: bool,
}

pub open spec fn any_present(p: Presence) -> bool {
    p.root || p.etcd || p.front_proxy
}

/// Why creating one authority must be refused; `None` when it may go on.
pub open spec fn create_refusal(
    id: CaIdentity,
    root_available: bool,
    target_present: bool,
    overwrite: bool,
) -> Option<PkiError> {
    if id != CaIdentity::Root && !root_available {
        Some(PkiError::MissingIssuer)
    } else if target_present && !overwrite {
        Some(PkiError::AlreadyExists)
    } else {
        None
    }
}

/// Prepares one authority: the profile of its certificate and a fresh ledger
/// with its counter at zero. A signed authority needs the root to exist;
/// an existing bundle is kept unless `overwrite`.
pub fn create_ca(
    id: CaIdentity,
    settings: &ClusterSettings,
    root_available: bool,
    target_present: bool,
    overwrite: bool,
) -> (r: Result<(CaProfile, CaLedger), PkiError>)
    ensures
        match r {
            Ok((p, l)) => {
                &&& create_refusal(id, root_available, target_present, overwrite) is None
                &&& p.identity == id
                &&& p.common_name@ == spec_ca_common_name(id, *settings)
                &&& p.signer == spec_ca_signer(id)
                &&& p.validity_days == settings.ca_validity_days
                &&& p.is_ca
                &&& p.key_usage == spec_ca_key_usage()
                &&& l.wf()
                &&& l.identity == id
                &&& l.counter == 0
                &&& l.issued@.len() == 0
            },
            Err(e) => create_refusal(id, root_available, target_present, overwrite) == Some(e),
        },
{
    if id != CaIdentity::Root && !root_available {
        return Err(PkiError::MissingIssuer);
    }
    if target_present && !overwrite {
        return Err(PkiError::AlreadyExists);
    }
    Ok((id.ca_profile(settings), CaLedger::new(id)))
}

/// The order in which the hierarchy is created: the root first, then the two
/// authorities it signs. Refused when any of them already holds a bundle,
/// unless `overwrite`.
pub fn bootstrap_order(present: Presence, overwrite: bool) -> (r: Result<Vec<CaIdentity>, PkiError>)
    ensures
        match r {
            Ok(v) => !(any_present(present) && !overwrite) && v@ == seq![
                CaIdentity::Root,
                CaIdentity::Etcd,
                CaIdentity::FrontProxy,
            ],
            Err(e) => any_present(present) && !overwrite && e == PkiError::AlreadyExists,
        },
{
    if !overwrite && (present.root || present.etcd || present.front_proxy) {
        return Err(PkiError::AlreadyExists);
    }
    let mut v: Vec<CaIdentity> = Vec::new();
    v.push(CaIdentity::Root);
    v.push(CaIdentity::Etcd);
    v.push(CaIdentity::FrontProxy);
    assert(v@ =~= seq![CaIdentity::Root, CaIdentity::Etcd, CaIdentity::FrontProxy]);
    Ok(v)
}

/// The hierarchy while it is being created: each authority once it is made.
#[derive(Clone, Debug)]
pub struct Hierarchy {
    pub main_ca: Option<CaLedger>,
    pub etcd_ca: Option<CaLedger>,
    pub front_ca: Option<CaLedger>,
}

/// One authority made: the profile and serial of its certificate, and the
/// counters to store, in this order, before its bundle is written.
#[derive(Clone, Debug)]
pub struct CaCreated {
    pub profile: CaProfile,
    pub serial: u64,
    pub counters: Vec<(CaIdentity, u64)>,
}

pub open spec fn slot_wf(slot: Option<CaLedger>, id: CaIdentity) -> bool {
    match slot {
        Some(l) => l.wf() && l.identity == id,
        None => true,
    }
}

/// A ledger as an authority starts: counter at zero, nothing issued.
pub open spec fn is_fresh(l: CaLedger, id: CaIdentity, counter: u64) -> bool {
    &&& l.wf()
    &&& l.identity == id
    &&& l.counter == counter
    &&& l.issued@.len() == 0
}

/// Why making `id` in `h` must be refused; `None` when it may go on. The
/// root pays for the serial of each authority it signs.
pub open spec fn hierarchy_refusal(
    h: Hierarchy,
    id: CaIdentity,
    target_present: bool,
    overwrite: bool,
) -> Option<PkiError> {
    let r = create_refusal(id, h.main_ca is Some, target_present, overwrite);
    if r is Some {
        r
    } else if id != CaIdentity::Root && h.main_ca.unwrap().counter == u64::MAX {
        Some(PkiError::SerialExhausted)
    } else {
        None
    }
}

impl Hierarchy {
    pub open spec fn wf(&self) -> bool {
        &&& slot_wf(self.main_ca, CaIdentity::Root)
        &&& slot_wf(self.etcd_ca, CaIdentity::Etcd)
        &&& slot_wf(self.front_ca, CaIdentity::FrontProxy)
    }

    pub open spec fn slot(&self, id: CaIdentity) -> Option<CaLedger> {
        match id {
            CaIdentity::Root => self.main_ca,
            CaIdentity::Etcd => self.etcd_ca,
            CaIdentity::FrontProxy => self.front_ca,
        }
    }

    /// Nothing made yet.
    pub fn new() -> (r: Hierarchy)
        ensures
            r.wf(),
            r.main_ca is None,
            r.etcd_ca is None,
            r.front_ca is None,
    {
        Hierarchy { main_ca: None, etcd_ca: None, front_ca: None }
    }

    /// Makes one authority. The root takes serial 1 from its own fresh
    /// ledger; the etcd and front-proxy authorities take the root's next
    /// serial and start their own counters at zero.
    pub fn create(
        &mut self,
        id: CaIdentity,
        settings: &ClusterSettings,
        target_present: bool,
        overwrite: bool,
    ) -> (r: Result<CaCreated, PkiError>)
        requires
            old(self).wf(),
        ensures
            final(self).wf(),
            match r {
                Ok(c) => {
                    &&& hierarchy_refusal(*old(self), id, target_present, overwrite) is None
                    &&& c.profile.identity == id
                    &&& c.profile.common_name@ == spec_ca_common_name(id, *settings)
                    &&& c.profile.signer == spec_ca_signer(id)
                    &&& c.profile.validity_days == settings.ca_validity_days
                    &&& c.profile.is_ca
                    &&& c.profile.key_usage == spec_ca_key_usage()
                    &&& forall|o: CaIdentity| o != id && o != CaIdentity::Root ==>
                        #[trigger] final(self).slot(o) == old(self).slot(o)
                    &&& if id == CaIdentity::Root {
                        &&& c.serial == 1
                        &&& final(self).main_ca matches Some(l) && is_fresh(l, id, 1)
                        &&& c.counters@ == seq![(CaIdentity::Root, 1u64)]
                    } else {
                        &&& old(self).main_ca matches Some(before)
                        &&& final(self).main_ca matches Some(after)
                        &&& allocated(before, after, c.serial)
                        &&& after.identity == before.identity
                        &&& after.issued@ == before.issued@
                        &&& final(self).slot(id) matches Some(l) && is_fresh(l, id, 0)
                        &&& c.counters@ == seq![(CaIdentity::Root, c.serial), (id, 0u64)]
                    }
                },
                Err(e) => {
                    &&& hierarchy_refusal(*old(self), id, target_present, overwrite) == Some(e)
                    &&& *final(self) == *old(self)
                },
            },
    {
        let (profile, mut ledger) = match create_ca(
            id,
            settings,
            self.main_ca.is_some(),
            target_present,
            overwrite,
        ) {
            Ok(made) => made,
            Err(e) => return Err(e),
        };
        let mut counters: Vec<(CaIdentity, u64)> = Vec::new();
        if id == CaIdentity::Root {
            let serial = match ledger.next_serial() {
                Ok(s) => s,
                Err(e) => return Err(e),
            };
            counters.push((CaIdentity::Root, serial));
            self.main_ca = Some(ledger);
            assert(counters@ =~= seq![(CaIdentity::Root, 1u64)]);
            Ok(CaCreated { profile, serial, counters })
        } else {
            let serial = match &mut self.main_ca {
                Some(root) => match root.next_serial() {
                    Ok(s) => s,
                    Err(e) => return Err(e),
                },
                None => return Err(PkiError::MissingIssuer),
            };
            counters.push((CaIdentity::Root, serial));
            counters.push((id, 0));
            match id {
                CaIdentity::Etcd => self.etcd_ca = Some(ledger),
                _ => self.front_ca = Some(ledger),
            }
            assert(counters@ =~= seq![(CaIdentity::Root, serial), (id, 0u64)]);
            Ok(CaCreated { profile, serial, counters })
        }
    }

    /// The finished hierarchy, once all three authorities are made.
    pub fn into_ca(self) -> (r: Option<CA>)
        requires
            self.wf(),
        ensures
            match r {
                Some(ca) => {
                    &&& ca.wf()
                    &&& self.main_ca == Some(ca.main_ca)
                    &&& self.etcd_ca == Some(ca.etcd_ca)
                    &&& self.front_ca == Some(ca.front_ca)
                },
                None => self.main_ca is None || self.etcd_ca is None || self.front_ca is None,
            },
    {
        match (self.main_ca, self.etcd_ca, self.front_ca) {
            (Some(main_ca), Some(etcd_ca), Some(front_ca)) => Some(CA { main_ca, etcd_ca, front_ca }),
            _ => None,
        }
    }
}

/// `l` is the link `<dir>/<alias>` to the given part of an authority's bundle.
pub open spec fn is_reference(l: Link, dir: Seq<char>, id: CaIdentity, part: BundlePart) -> bool {
    &&& l.path@ == dir + "/"@ + spec_alias_stem(id) + spec_extension(part)
    &&& l.target@ == "../"@ + spec_part_path(spec_ca_dir(id), "ca"@, part)
}

/// The links of the control-plane directory `master`: the root's and the
/// front proxy's certificate and key, and the etcd authority's certificate.
pub fn master_links() -> (r: Vec<Link>)
    ensures
        r@.len() == 5,
        is_reference(r@[0], "master"@, CaIdentity::Root, BundlePart::Certificate),
        is_reference(r@[1], "master"@, CaIdentity::Root, BundlePart::Key),
        is_reference(r@[2], "master"@, CaIdentity::Etcd, BundlePart::Certificate),
        is_reference(r@[3], "master"@, CaIdentity::FrontProxy, BundlePart::Certificate),
        is_reference(r@[4], "master"@, CaIdentity::FrontProxy, BundlePart::Key),
{
    let mut r: Vec<Link> = Vec::new();
    r.push(ca_reference("master", CaIdentity::Root, BundlePart::Certificate));
    r.push(ca_reference("master", CaIdentity::Root, BundlePart::Key));
    r.push(ca_reference("master", CaIdentity::Etcd, BundlePart::Certificate));
    r.push(ca_reference("master", CaIdentity::FrontProxy, BundlePart::Certificate));
    r.push(ca_reference("master", CaIdentity::FrontProxy, BundlePart::Key));
    r
}

/// A worker's directory exposes the root's certificate as `ca.crt`.
pub fn worker_link(i: &Instance) -> (r: Link)
    ensures
        is_reference(r, spec_instance_dir(*i), CaIdentity::Root, BundlePart::Certificate),
{
    let dir = instance_dir(i);
    ca_reference(dir.as_str(), CaIdentity::Root, BundlePart::Certificate)
}

/// An etcd server's directory exposes the etcd authority's certificate as
/// `etcd-ca.crt`.
pub fn etcd_server_link(i: &Instance) -> (r: Link)
    ensures
        is_reference(r, spec_instance_dir(*i), CaIdentity::Etcd, BundlePart::Certificate),
{
    let dir = instance_dir(i);
    ca_reference(dir.as_str(), CaIdentity::Etcd, BundlePart::Certificate)
}

/// The root signs itself and both other authorities; nothing else signs an
/// authority, and a signed authority cannot be created before the root.
pub proof fn authorities_signed_by_root(id: CaIdentity, target_present: bool, overwrite: bool)
    ensures
        id == CaIdentity::Root <==> spec_ca_signer(id) is None,
        id != CaIdentity::Root ==> spec_ca_signer(id) == Some(CaIdentity::Root),
        id != CaIdentity::Root ==> create_refusal(id, false, target_present, overwrite) == Some(
            PkiError::MissingIssuer,
        ),
{
}

} // verus!
