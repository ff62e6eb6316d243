//! Kind selectors such as `kubelet:<hostname>` and what they ask for.

use vstd::prelude::*;
use crate::catalog::{same_instance, CertKind, Instance};
use crate::error::PkiError;
use crate::text::{same_text, strip_prefix};

verus! {

/// The kinds that a selector names by a fixed word.
#[derive(Clone, Copy, Debug, PartialEq, Eq, Structural)]
pub enum FixedKind {
    Admin,
    ApiServer,
    ApiServerClient,
    ApiServerEtcdClient,
    ControllerManager,
    Scheduler,
    FrontProxyClient,
    Proxy,
}

/// A parsed kind selector: `<kind>`, `kubelet:<hostname>`, `etcd:<hostname>`
/// or `etcd-user:<username>`.
#[derive(Clone, Debug)]
pub enum Selector {
    Fixed(FixedKind),
    Kubelet(String),
    Etcd(String),
    EtcdUser(String),
}

pub open spec fn fixed_word(k: FixedKind) -> Seq<char> {
    match k {
        FixedKind::Admin => "admin"@,
        FixedKind::ApiServer => "apiserver"@,
        FixedKind::ApiServerClient => "apiserver-client"@,
        FixedKind::ApiServerEtcdClient => "apiserver-etcd-client"@,
        FixedKind::ControllerManager => "controller-manager"@,
        FixedKind::Scheduler => "scheduler"@,
        FixedKind::FrontProxyClient => "front-proxy-client"@,
        FixedKind::Proxy => "proxy"@,
    }
}

pub open spec fn fixed_kind(k: FixedKind) -> CertKind {
    match k {
        FixedKind::Admin => CertKind::Admin,
        FixedKind::ApiServer => CertKind::ApiServer,
        FixedKind::ApiServerClient => CertKind::ApiServerClient,
        FixedKind::ApiServerEtcdClient => CertKind::ApiServerEtcdClient,
        FixedKind::ControllerManager => CertKind::ControllerManager,
        FixedKind::Scheduler => CertKind::Scheduler,
        FixedKind::FrontProxyClient => CertKind::FrontProxyClient,
        FixedKind::Proxy => CertKind::Proxy,
    }
}

/// The text `s` is written as the selector `sel`.
pub open spec fn denotes(s: Seq<char>, sel: Selector) -> bool {
    match sel {
        Selector::Fixed(k) => s == fixed_word(k),
        Selector::Kubelet(h) => s == "kubelet:"@ + h@,
        Selector::Etcd(h) => s == "etcd:"@ + h@,
        Selector::EtcdUser(u) => s == "etcd-user:"@ + u@,
    }
}

impl FixedKind {
    pub fn kind(&self) -> (r: CertKind)
        ensures
            r == fixed_kind(*self),
    {
        match self {
            FixedKind::Admin => CertKind::Admin,
            FixedKind::ApiServer => CertKind::ApiServer,
            FixedKind::ApiServerClient => CertKind::ApiServerClient,
            FixedKind::ApiServerEtcdClient => CertKind::ApiServerEtcdClient,
            FixedKind::ControllerManager => CertKind::ControllerManager,
            FixedKind::Scheduler => CertKind::Scheduler,
            FixedKind::FrontProxyClient => CertKind::FrontProxyClient,
            FixedKind::Proxy => CertKind::Proxy,
        }
    }
}

/// Parses a kind selector; text that is no selector is an unknown kind.
pub fn parse_selector(s: &str) -> (r: Result<Selector, PkiError>)
    ensures
        match r {
            Ok(sel) => denotes(s@, sel),
            Err(e) => e == PkiError::UnknownCertificateKind && forall|sel: Selector|
                !denotes(s@, sel),
        },
{
    if same_text(s, "admin") {
        return Ok(Selector::Fixed(FixedKind::Admin));
    }
    if same_text(s, "apiserver") {
        return Ok(Selector::Fixed(FixedKind::ApiServer));
    }
    if same_text(s, "apiserver-client") {
        return Ok(Selector::Fixed(FixedKind::ApiServerClient));
    }
    if same_text(s, "apiserver-etcd-client") {
        return Ok(Selector::Fixed(FixedKind::ApiServerEtcdClient));
    }
    if same_text(s, "controller-manager") {
        return Ok(Selector::Fixed(FixedKind::ControllerManager));
    }
    if same_text(s, "scheduler") {
        return Ok(Selector::Fixed(FixedKind::Scheduler));
    }
    if same_text(s, "front-proxy-client") {
        return Ok(Selector::Fixed(FixedKind::FrontProxyClient));
    }
    if same_text(s, "proxy") {
        return Ok(Selector::Fixed(FixedKind::Proxy));
    }
    if let Some(h) = strip_prefix(s, "kubelet:") {
        return Ok(Selector::Kubelet(h));
    }
    if let Some(h) = strip_prefix(s, "etcd:") {
        return Ok(Selector::Etcd(h));
    }
    if let Some(u) = strip_prefix(s, "etcd-user:") {
        return Ok(Selector::EtcdUser(u));
    }
    assert forall|sel: Selector| !denotes(s@, sel) by {
        match sel {
            Selector::Kubelet(h) => {
                if s@ == "kubelet:"@ + h@ {
                    assert(s@.subrange(0, "kubelet:"@.len() as int) =~= "kubelet:"@);
                }
            },
            Selector::Etcd(h) => {
                if s@ == "etcd:"@ + h@ {
                    assert(s@.subrange(0, "etcd:"@.len() as int) =~= "etcd:"@);
                }
            },
            Selector::EtcdUser(u) => {
                if s@ == "etcd-user:"@ + u@ {
                    assert(s@.subrange(0, "etcd-user:"@.len() as int) =~= "etcd-user:"@);
                }
            },
            Selector::Fixed(_) => {},
        }
    }
    Err(PkiError::UnknownCertificateKind)
}

/// `i` is the last position of `v` whose hostname is `h`: a hostname listed
/// twice names its later entry.
pub open spec fn last_with_host(v: Seq<Instance>, h: Seq<char>, i: int) -> bool {
    &&& 0 <= i < v.len()
    &&& v[i].hostname@ == h
    &&& forall|k: int| i < k < v.len() ==> (#[trigger] v[k]).hostname@ != h
}

pub open spec fn host_absent(v: Seq<Instance>, h: Seq<char>) -> bool {
    forall|k: int| 0 <= k < v.len() ==> (#[trigger] v[k]).hostname@ != h
}

/// The position of the last instance with the given hostname.
pub fn find_instance(instances: &Vec<Instance>, hostname: &str) -> (r: Option<usize>)
    ensures
        match r {
            Some(i) => last_with_host(instances@, hostname@, i as int),
            None => host_absent(instances@, hostname@),
        },
{
    let mut i: usize = instances.len();
    while i > 0
        invariant
            i <= instances@.len(),
            forall|k: int| i <= k < instances@.len() ==> (#[trigger] instances@[k]).hostname@
                != hostname@,
        decreases i,
    {
        i -= 1;
        if same_text(instances[i].hostname.as_str(), hostname) {
            return Some(i);
        }
    }
    None
}

/// The certificates a selector asks for. A hostname is looked up among the
/// workers (`kubelet:`, giving the client and the serving certificate) or the
/// etcd servers (`etcd:`); one that is not configured is refused before
/// anything is issued.
pub fn resolve_selector(
    sel: &Selector,
    workers: &Vec<Instance>,
    etcd_servers: &Vec<Instance>,
) -> (r: Result<Vec<CertKind>, PkiError>)
    ensures
        match (*sel, r) {
            (Selector::Fixed(k), Ok(ks)) => ks@ == seq![fixed_kind(k)],
            (Selector::Kubelet(h), Ok(ks)) => exists|i: int|
                #![trigger workers@[i]]
                {
                    &&& last_with_host(workers@, h@, i)
                    &&& ks@.len() == 2
                    &&& ks@[0] matches CertKind::Kubelet(a) && same_instance(a, workers@[i])
                    &&& ks@[1] matches CertKind::KubeletServer(b) && same_instance(b, workers@[i])
                },
            (Selector::Kubelet(h), Err(e)) => e == PkiError::NoSuchHostname && host_absent(
                workers@,
                h@,
            ),
            (Selector::Etcd(h), Ok(ks)) => exists|i: int|
                #![trigger etcd_servers@[i]]
                {
                    &&& last_with_host(etcd_servers@, h@, i)
                    &&& ks@.len() == 1
                    &&& ks@[0] matches CertKind::EtcdServer(a) && same_instance(
                        a,
                        etcd_servers@[i],
                    )
                },
            (Selector::Etcd(h), Err(e)) => e == PkiError::NoSuchHostname && host_absent(
                etcd_servers@,
                h@,
            ),
            (Selector::EtcdUser(u), Ok(ks)) => {
                &&& ks@.len() == 1
                &&& ks@[0] matches CertKind::EtcdUser(n) && n@ == u@
            },
            (_, Err(_)) => false,
        },
{
    let mut ks: Vec<CertKind> = Vec::new();
    match sel {
        Selector::Fixed(k) => {
            ks.push(k.kind());
            assert(ks@ =~= seq![fixed_kind(*k)]);
        },
        Selector::Kubelet(h) => match find_instance(workers, h.as_str()) {
            Some(i) => {
                ks.push(CertKind::Kubelet(workers[i].duplicate()));
                ks.push(CertKind::KubeletServer(workers[i].duplicate()));
                assert(last_with_host(workers@, h@, i as int));
            },
            None => return Err(PkiError::NoSuchHostname),
        },
        Selector::Etcd(h) => match find_instance(etcd_servers, h.as_str()) {
            Some(i) => {
                ks.push(CertKind::EtcdServer(etcd_servers[i].duplicate()));
                assert(last_with_host(etcd_servers@, h@, i as int));
            },
            None => return Err(PkiError::NoSuchHostname),
        },
        Selector::EtcdUser(u) => {
            ks.push(CertKind::EtcdUser(u.clone()));
        },
    }
    Ok(ks)
}

} // verus!
