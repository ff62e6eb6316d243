//! The closed catalog of certificate kinds and the profile of each.

use vstd::prelude::*;
use crate::text::{copy_opt, copy_strings, extend_copies, joined, lemma_views_add, opt_view, owned, views};

verus! {

/// The three certificate authorities of a cluster.
#[derive(Clone, Copy, Debug, PartialEq, Eq, Structural)]
pub enum CaIdentity {
    Root,
    Etcd,
    FrontProxy,
}

/// A configured cluster member: a worker node or an etcd server.
#[derive(Clone, Debug)]
pub struct Instance {
    pub hostname: String,
    /// Name of the output directory, in place of the hostname.
    pub filename: Option<String>,
    pub ip_addresses: Vec<String>,
    pub dns_names: Vec<String>,
}

/// Two instances that hold the same values.
pub open spec fn same_instance(a: Instance, b: Instance) -> bool {
    &&& a.hostname@ == b.hostname@
    &&& opt_view(a.filename) == opt_view(b.filename)
    &&& a.ip_addresses@ == b.ip_addresses@
    &&& a.dns_names@ == b.dns_names@
}

impl Instance {
    pub fn duplicate(&self) -> (r: Instance)
        ensures
            same_instance(r, *self),
    {
        Instance {
            hostname: self.hostname.clone(),
            filename: copy_opt(&self.filename),
            ip_addresses: copy_strings(&self.ip_addresses),
            dns_names: copy_strings(&self.dns_names),
        }
    }
}

/// A human principal; the group encodes RBAC membership.
#[derive(Clone, Debug)]
pub struct User {
    pub username: String,
    pub group: Option<String>,
}

/// The cluster-wide values that profiles draw on.
#[derive(Clone, Debug)]
pub struct ClusterSettings {
    pub cluster_name: String,
    pub apiserver_dns_names: Vec<String>,
    pub apiserver_ip_addresses: Vec<String>,
    pub ca_validity_days: u32,
    pub leaf_validity_days: u32,
}

/// The closed set of leaf certificate purposes, each with its subject data.
#[derive(Clone, Debug)]
pub enum CertKind {
    Kubelet(Instance),
    KubeletServer(Instance),
    EtcdServer(Instance),
    EtcdPeer(Instance),
    EtcdUser(String),
    Admin,
    User(User),
    ApiServer,
    ApiServerClient,
    ApiServerEtcdClient,
    ControllerManager,
    Scheduler,
    FrontProxyClient,
    Proxy,
}

#[derive(Clone, Copy, Debug, PartialEq, Eq, Structural)]
pub struct KeyUsage {
    pub digital_signature: bool,
    pub key_encipherment: bool,
}

#[derive(Clone, Copy, Debug, PartialEq, Eq, Structural)]
pub enum ExtKeyUsage {
    ServerAuth,
    ClientAuth,
}

/// What a certificate of some kind must carry.
#[derive(Clone, Debug)]
pub struct Profile {
    pub issuer: CaIdentity,
    pub common_name: String,
    pub organization: Option<String>,
    pub dns_names: Vec<String>,
    pub ip_addresses: Vec<String>,
    pub key_usage: KeyUsage,
    pub ext_key_usage: ExtKeyUsage,
    pub validity_days: u32,
}

pub struct ProfileView {
    pub issuer: CaIdentity,
    pub common_name: Seq<char>,
    pub organization: Option<Seq<char>>,
    pub dns_names: Seq<Seq<char>>,
    pub ip_addresses: Seq<Seq<char>>,
    pub key_usage: KeyUsage,
    pub ext_key_usage: ExtKeyUsage,
    pub validity_days: u32,
}

impl View for Profile {
    type V = ProfileView;

    open spec fn view(&self) -> ProfileView {
        ProfileView {
            issuer: self.issuer,
            common_name: self.common_name@,
            organization: opt_view(self.organization),
            dns_names: views(self.dns_names@),
            ip_addresses: views(self.ip_addresses@),
            key_usage: self.key_usage,
            ext_key_usage: self.ext_key_usage,
            validity_days: self.validity_days,
        }
    }
}

/// The authority that signs each kind.
pub open spec fn spec_issuer(kind: CertKind) -> CaIdentity {
    match kind {
        CertKind::EtcdServer(_) | CertKind::EtcdPeer(_) | CertKind::EtcdUser(_)
        | CertKind::ApiServerEtcdClient => CaIdentity::Etcd,
        CertKind::FrontProxyClient => CaIdentity::FrontProxy,
        _ => CaIdentity::Root,
    }
}

pub open spec fn is_server_kind(kind: CertKind) -> bool {
    kind is KubeletServer || kind is EtcdServer || kind is ApiServer
}

pub open spec fn spec_ext_key_usage(kind: CertKind) -> ExtKeyUsage {
    if is_server_kind(kind) {
        ExtKeyUsage::ServerAuth
    } else {
        ExtKeyUsage::ClientAuth
    }
}

/// Servers sign and encipher keys; clients only sign.
pub open spec fn spec_key_usage(kind: CertKind) -> KeyUsage {
    KeyUsage { digital_signature: true, key_encipherment: is_server_kind(kind) }
}

pub open spec fn spec_common_name(kind: CertKind) -> Seq<char> {
    match kind {
        CertKind::Kubelet(i) => "system:node:"@ + i.hostname@,
        CertKind::KubeletServer(i) => i.hostname@,
        CertKind::EtcdServer(i) => i.hostname@,
        CertKind::EtcdPeer(i) => i.hostname@,
        CertKind::EtcdUser(name) => name@,
        CertKind::Admin => "admin"@,
        CertKind::User(u) => u.username@,
        CertKind::ApiServer => "kube-apiserver"@,
        CertKind::ApiServerClient => "kube-apiserver-kubelet-client"@,
        CertKind::ApiServerEtcdClient => "kube-apiserver-etcd-client"@,
        CertKind::ControllerManager => "system:kube-controller-manager"@,
        CertKind::Scheduler => "system:kube-scheduler"@,
        CertKind::FrontProxyClient => "front-proxy-client"@,
        CertKind::Proxy => "system:kube-proxy"@,
    }
}

pub open spec fn spec_organization(kind: CertKind) -> Option<Seq<char>> {
    match kind {
        CertKind::Kubelet(_) => Some("system:nodes"@),
        CertKind::Admin | CertKind::ApiServerClient => Some("system:masters"@),
        CertKind::User(u) => opt_view(u.group),
        _ => None,
    }
}

pub open spec fn spec_dns_names(kind: CertKind, s: ClusterSettings) -> Seq<Seq<char>> {
    match kind {
        CertKind::Kubelet(i) => seq![i.hostname@] + views(i.dns_names@),
        CertKind::KubeletServer(i) => seq![i.hostname@] + views(i.dns_names@),
        CertKind::EtcdServer(i) => seq!["localhost"@, i.hostname@] + views(i.dns_names@),
        CertKind::EtcdPeer(i) => seq!["localhost"@, i.hostname@] + views(i.dns_names@),
        CertKind::ApiServer => seq![
            "localhost"@,
            "kubernetes"@,
            "kubernetes.default"@,
            "kubernetes.default.svc"@,
        ] + views(s.apiserver_dns_names@),
        _ => Seq::empty(),
    }
}

pub open spec fn spec_ip_addresses(kind: CertKind, s: ClusterSettings) -> Seq<Seq<char>> {
    match kind {
        CertKind::Kubelet(i) => views(i.ip_addresses@),
        CertKind::KubeletServer(i) => views(i.ip_addresses@),
        CertKind::EtcdServer(i) => seq!["127.0.0.1"@] + views(i.ip_addresses@),
        CertKind::EtcdPeer(i) => seq!["127.0.0.1"@] + views(i.ip_addresses@),
        CertKind::ApiServer => seq!["127.0.0.1"@] + views(s.apiserver_ip_addresses@),
        _ => Seq::empty(),
    }
}

/// The profile of a kind: a function of the kind's own subject data and the
/// cluster settings alone.
pub open spec fn spec_profile(kind: CertKind, s: ClusterSettings) -> ProfileView {
    ProfileView {
        issuer: spec_issuer(kind),
        common_name: spec_common_name(kind),
        organization: spec_organization(kind),
        dns_names: spec_dns_names(kind, s),
        ip_addresses: spec_ip_addresses(kind, s),
        key_usage: spec_key_usage(kind),
        ext_key_usage: spec_ext_key_usage(kind),
        validity_days: s.leaf_validity_days,
    }
}

impl CertKind {
    pub fn issuer(&self) -> (r: CaIdentity)
        ensures
            r == spec_issuer(*self),
    {
        match self {
            CertKind::EtcdServer(_) | CertKind::EtcdPeer(_) | CertKind::EtcdUser(_)
            | CertKind::ApiServerEtcdClient => CaIdentity::Etcd,
            CertKind::FrontProxyClient => CaIdentity::FrontProxy,
            _ => CaIdentity::Root,
        }
    }

    pub fn is_server(&self) -> (r: bool)
        ensures
            r == is_server_kind(*self),
    {
        match self {
            CertKind::KubeletServer(_) | CertKind::EtcdServer(_) | CertKind::ApiServer => true,
            _ => false,
        }
    }

    pub fn ext_key_usage(&self) -> (r: ExtKeyUsage)
        ensures
            r == spec_ext_key_usage(*self),
    {
        if self.is_server() {
            ExtKeyUsage::ServerAuth
        } else {
            ExtKeyUsage::ClientAuth
        }
    }

    pub fn key_usage(&self) -> (r: KeyUsage)
        ensures
            r == spec_key_usage(*self),
    {
        KeyUsage { digital_signature: true, key_encipherment: self.is_server() }
    }

    pub fn common_name(&self) -> (r: String)
        ensures
            r@ == spec_common_name(*self),
    {
        match self {
            CertKind::Kubelet(i) => joined("system:node:", i.hostname.as_str()),
            CertKind::KubeletServer(i) => i.hostname.clone(),
            CertKind::EtcdServer(i) => i.hostname.clone(),
            CertKind::EtcdPeer(i) => i.hostname.clone(),
            CertKind::EtcdUser(name) => name.clone(),
            CertKind::Admin => owned("admin"),
            CertKind::User(u) => u.username.clone(),
            CertKind::ApiServer => owned("kube-apiserver"),
            CertKind::ApiServerClient => owned("kube-apiserver-kubelet-client"),
            CertKind::ApiServerEtcdClient => owned("kube-apiserver-etcd-client"),
            CertKind::ControllerManager => owned("system:kube-controller-manager"),
            CertKind::Scheduler => owned("system:kube-scheduler"),
            CertKind::FrontProxyClient => owned("front-proxy-client"),
            CertKind::Proxy => owned("system:kube-proxy"),
        }
    }

    pub fn organization(&self) -> (r: Option<String>)
        ensures
            opt_view(r) == spec_organization(*self),
    {
        match self {
            CertKind::Kubelet(_) => Some(owned("system:nodes")),
            CertKind::Admin | CertKind::ApiServerClient => Some(owned("system:masters")),
            CertKind::User(u) => copy_opt(&u.group),
            _ => None,
        }
    }

    pub fn dns_names(&self, s: &ClusterSettings) -> (r: Vec<String>)
        ensures
            views(r@) == spec_dns_names(*self, *s),
    {
        let mut r: Vec<String> = Vec::new();
        let ghost extra: Seq<String> = Seq::empty();
        match self {
            CertKind::Kubelet(i) | CertKind::KubeletServer(i) => {
                r.push(i.hostname.clone());
                extend_copies(&mut r, &i.dns_names);
                proof { extra = i.dns_names@; }
            },
            CertKind::EtcdServer(i) | CertKind::EtcdPeer(i) => {
                r.push(owned("localhost"));
                r.push(i.hostname.clone());
                extend_copies(&mut r, &i.dns_names);
                proof { extra = i.dns_names@; }
            },
            CertKind::ApiServer => {
                r.push(owned("localhost"));
                r.push(owned("kubernetes"));
                r.push(owned("kubernetes.default"));
                r.push(owned("kubernetes.default.svc"));
                extend_copies(&mut r, &s.apiserver_dns_names);
                proof { extra = s.apiserver_dns_names@; }
            },
            _ => {},
        }
        proof {
            let head = r@.subrange(0, r@.len() - extra.len());
            assert(r@ =~= head + extra);
            lemma_views_add(head, extra);
            assert(views(head) =~= spec_dns_names(*self, *s).subrange(
                0,
                head.len() as int,
            ));
            assert(views(r@) =~= spec_dns_names(*self, *s));
        }
        r
    }
    pub fn ip_addresses(&self, s: &ClusterSettings) -> (r: Vec<String>)
        ensures
            views(r@) == spec_ip_addresses(*self, *s),
    {
        let mut r: Vec<String> = Vec::new();
        let ghost extra: Seq<String> = Seq::empty();
        match self {
            CertKind::Kubelet(i) | CertKind::KubeletServer(i) => {
                extend_copies(&mut r, &i.ip_addresses);
                proof { extra = i.ip_addresses@; }
            },
            CertKind::EtcdServer(i) | CertKind::EtcdPeer(i) => {
                r.push(owned("127.0.0.1"));
                extend_copies(&mut r, &i.ip_addresses);
                proof { extra = i.ip_addresses@; }
            },
            CertKind::ApiServer => {
                r.push(owned("127.0.0.1"));
                extend_copies(&mut r, &s.apiserver_ip_addresses);
                proof { extra = s.apiserver_ip_addresses@; }
            },
            _ => {},
        }
        proof {
            let head = r@.subrange(0, r@.len() - extra.len());
            assert(r@ =~= head + extra);
            lemma_views_add(head, extra);
            assert(views(head) =~= spec_ip_addresses(*self, *s).subrange(
                0,
                head.len() as int,
            ));
            assert(views(r@) =~= spec_ip_addresses(*self, *s));
        }
        r
    }

    /// Resolves the profile of this kind; touches neither storage nor keys.
    pub fn resolve(&self, s: &ClusterSettings) -> (r: Profile)
        ensures
            r@ == spec_profile(*self, *s),
    {
        Profile {
            issuer: self.issuer(),
            common_name: self.common_name(),
            organization: self.organization(),
            dns_names: self.dns_names(s),
            ip_addresses: self.ip_addresses(s),
            key_usage: self.key_usage(),
            ext_key_usage: self.ext_key_usage(),
            validity_days: s.leaf_validity_days,
        }
    }
}

/// What the certificate of an authority carries.
#[derive(Clone, Debug)]
pub struct CaProfile {
    pub identity: CaIdentity,
    pub common_name: String,
    /// The authority that signs it; `None` when it signs itself.
    pub signer: Option<CaIdentity>,
    pub validity_days: u32,
    /// Marked as an authority in its basic constraints.
    pub is_ca: bool,
    pub key_usage: CaKeyUsage,
}

/// The key usage of an authority's certificate.
#[derive(Clone, Copy, Debug, PartialEq, Eq, Structural)]
pub struct CaKeyUsage {
    pub cert_sign: bool,
    pub crl_sign: bool,
    pub digital_signature: bool,
}

/// An authority signs certificates and revocation lists, and signs digitally.
pub open spec fn spec_ca_key_usage() -> CaKeyUsage {
    CaKeyUsage { cert_sign: true, crl_sign: true, digital_signature: true }
}

/// Only the root signs itself; it signs the other two.
pub open spec fn spec_ca_signer(id: CaIdentity) -> Option<CaIdentity> {
    match id {
        CaIdentity::Root => None,
        _ => Some(CaIdentity::Root),
    }
}

pub open spec fn spec_ca_common_name(id: CaIdentity, s: ClusterSettings) -> Seq<char> {
    match id {
        CaIdentity::Root => s.cluster_name@,
        CaIdentity::Etcd => "etcd"@,
        CaIdentity::FrontProxy => "front-proxy-ca"@,
    }
}

impl CaIdentity {
    pub fn signer(&self) -> (r: Option<CaIdentity>)
        ensures
            r == spec_ca_signer(*self),
    {
        match self {
            CaIdentity::Root => None,
            _ => Some(CaIdentity::Root),
        }
    }

    /// The profile of this authority's own certificate.
    pub fn ca_profile(&self, s: &ClusterSettings) -> (r: CaProfile)
        ensures
            r.identity == *self,
            r.common_name@ == spec_ca_common_name(*self, *s),
            r.signer == spec_ca_signer(*self),
            r.validity_days == s.ca_validity_days,
            r.is_ca,
            r.key_usage == spec_ca_key_usage(),
    {
        let common_name = match self {
            CaIdentity::Root => s.cluster_name.clone(),
            CaIdentity::Etcd => owned("etcd"),
            CaIdentity::FrontProxy => owned("front-proxy-ca"),
        };
        CaProfile {
            identity: *self,
            common_name,
            signer: self.signer(),
            validity_days: s.ca_validity_days,
            is_ca: true,
            key_usage: CaKeyUsage { cert_sign: true, crl_sign: true, digital_signature: true },
        }
    }
}

} // verus!
