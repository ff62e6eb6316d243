//! Where bundles and links live below the output root.

use vstd::prelude::*;
use vstd::string::*;
use crate::catalog::{CaIdentity, CertKind, Instance};
use crate::error::PkiError;
use crate::text::{joined, owned};

verus! {

/// Where a bundle lives: `<dir>/certs/<name>.crt` and `<dir>/keys/<name>.key`,
/// relative to the output root.
#[derive(Clone, Debug)]
pub struct Location {
    pub dir: String,
    pub name: String,
}

pub open spec fn spec_cert_path(dir: Seq<char>, name: Seq<char>) -> Seq<char> {
    dir + "/certs/"@ + name + ".crt"@
}

pub open spec fn spec_key_path(dir: Seq<char>, name: Seq<char>) -> Seq<char> {
    dir + "/keys/"@ + name + ".key"@
}

impl Location {
    pub fn cert_path(&self) -> (r: String)
        ensures
            r@ == spec_cert_path(self.dir@, self.name@),
    {
        let mut r = joined(self.dir.as_str(), "/certs/");
        r.append(self.name.as_str());
        r.append(".crt");
        r
    }

    pub fn key_path(&self) -> (r: String)
        ensures
            r@ == spec_key_path(self.dir@, self.name@),
    {
        let mut r = joined(self.dir.as_str(), "/keys/");
        r.append(self.name.as_str());
        r.append(".key");
        r
    }
}

pub open spec fn spec_ca_dir(id: CaIdentity) -> Seq<char> {
    match id {
        CaIdentity::Root => "CA/root"@,
        CaIdentity::Etcd => "CA/etcd"@,
        CaIdentity::FrontProxy => "CA/front-proxy"@,
    }
}

pub fn ca_dir(id: CaIdentity) -> (r: String)
    ensures
        r@ == spec_ca_dir(id),
{
    match id {
        CaIdentity::Root => owned("CA/root"),
        CaIdentity::Etcd => owned("CA/etcd"),
        CaIdentity::FrontProxy => owned("CA/front-proxy"),
    }
}

/// The canonical location of an authority's own bundle.
pub fn ca_location(id: CaIdentity) -> (r: Location)
    ensures
        r.dir@ == spec_ca_dir(id),
        r.name@ == "ca"@,
{
    Location { dir: ca_dir(id), name: owned("ca") }
}

/// The file that holds an authority's serial counter.
pub fn index_path(id: CaIdentity) -> (r: String)
    ensures
        r@ == spec_ca_dir(id) + "/index"@,
{
    let d = ca_dir(id);
    joined(d.as_str(), "/index")
}

pub open spec fn spec_instance_dir(i: Instance) -> Seq<char> {
    match i.filename {
        Some(f) => f@,
        None => i.hostname@,
    }
}

/// The output directory of an instance: its filename, else its hostname.
pub fn instance_dir(i: &Instance) -> (r: String)
    ensures
        r@ == spec_instance_dir(*i),
{
    match &i.filename {
        Some(f) => f.clone(),
        None => i.hostname.clone(),
    }
}

pub open spec fn spec_leaf_dir(kind: CertKind) -> Seq<char> {
    match kind {
        CertKind::Kubelet(i) | CertKind::KubeletServer(i) | CertKind::EtcdServer(i)
        | CertKind::EtcdPeer(i) => spec_instance_dir(i),
        CertKind::EtcdUser(_) => "etcd-users"@,
        CertKind::User(_) => "users"@,
        _ => "master"@,
    }
}

pub open spec fn spec_leaf_name(kind: CertKind) -> Seq<char> {
    match kind {
        CertKind::Kubelet(_) => "kubelet"@,
        CertKind::KubeletServer(_) => "kubelet-server"@,
        CertKind::EtcdServer(_) => "etcd-server"@,
        CertKind::EtcdPeer(_) => "etcd-peer"@,
        CertKind::EtcdUser(name) => name@,
        CertKind::User(u) => u.username@,
        CertKind::Admin => "admin"@,
        CertKind::ApiServer => "apiserver"@,
        CertKind::ApiServerClient => "apiserver-kubelet-client"@,
        CertKind::ApiServerEtcdClient => "apiserver-etcd-client"@,
        CertKind::ControllerManager => "controller-manager"@,
        CertKind::Scheduler => "scheduler"@,
        CertKind::FrontProxyClient => "front-proxy-client"@,
        CertKind::Proxy => "proxy"@,
    }
}

/// The canonical location of a leaf bundle.
pub fn leaf_location(kind: &CertKind) -> (r: Location)
    ensures
        r.dir@ == spec_leaf_dir(*kind),
        r.name@ == spec_leaf_name(*kind),
{
    match kind {
        CertKind::Kubelet(i) => Location { dir: instance_dir(i), name: owned("kubelet") },
        CertKind::KubeletServer(i) => Location {
            dir: instance_dir(i),
            name: owned("kubelet-server"),
        },
        CertKind::EtcdServer(i) => Location { dir: instance_dir(i), name: owned("etcd-server") },
        CertKind::EtcdPeer(i) => Location { dir: instance_dir(i), name: owned("etcd-peer") },
        CertKind::EtcdUser(name) => Location { dir: owned("etcd-users"), name: name.clone() },
        CertKind::User(u) => Location { dir: owned("users"), name: u.username.clone() },
        CertKind::Admin => Location { dir: owned("master"), name: owned("admin") },
        CertKind::ApiServer => Location { dir: owned("master"), name: owned("apiserver") },
        CertKind::ApiServerClient => Location {
            dir: owned("master"),
            name: owned("apiserver-kubelet-client"),
        },
        CertKind::ApiServerEtcdClient => Location {
            dir: owned("master"),
            name: owned("apiserver-etcd-client"),
        },
        CertKind::ControllerManager => Location {
            dir: owned("master"),
            name: owned("controller-manager"),
        },
        CertKind::Scheduler => Location { dir: owned("master"), name: owned("scheduler") },
        CertKind::FrontProxyClient => Location {
            dir: owned("master"),
            name: owned("front-proxy-client"),
        },
        CertKind::Proxy => Location { dir: owned("master"), name: owned("proxy") },
    }
}

/// A named alias at `path` resolving to `target`, which is written relative to
/// the directory that holds the alias.
#[derive(Clone, Debug)]
pub struct Link {
    pub path: String,
    pub target: String,
}

/// Which half of a bundle a link exposes.
#[derive(Clone, Copy, Debug, PartialEq, Eq, Structural)]
pub enum BundlePart {
    Certificate,
    Key,
}

pub open spec fn spec_alias_stem(id: CaIdentity) -> Seq<char> {
    match id {
        CaIdentity::Root => "ca"@,
        CaIdentity::Etcd => "etcd-ca"@,
        CaIdentity::FrontProxy => "front-proxy-ca"@,
    }
}

pub open spec fn spec_part_path(dir: Seq<char>, name: Seq<char>, part: BundlePart) -> Seq<char> {
    match part {
        BundlePart::Certificate => spec_cert_path(dir, name),
        BundlePart::Key => spec_key_path(dir, name),
    }
}

pub open spec fn spec_extension(part: BundlePart) -> Seq<char> {
    match part {
        BundlePart::Certificate => ".crt"@,
        BundlePart::Key => ".key"@,
    }
}

/// A link in a component directory one level below the output root, to a
/// part of an authority's bundle, named `ca.crt`, `etcd-ca.crt`, and so on.
pub fn ca_reference(dir: &str, id: CaIdentity, part: BundlePart) -> (r: Link)
    ensures
        r.path@ == dir@ + "/"@ + spec_alias_stem(id) + spec_extension(part),
        r.target@ == "../"@ + spec_part_path(spec_ca_dir(id), "ca"@, part),
{
    let stem = match id {
        CaIdentity::Root => "ca",
        CaIdentity::Etcd => "etcd-ca",
        CaIdentity::FrontProxy => "front-proxy-ca",
    };
    let ext = match part {
        BundlePart::Certificate => ".crt",
        BundlePart::Key => ".key",
    };
    let mut path = joined(dir, "/");
    path.append(stem);
    path.append(ext);
    let loc = ca_location(id);
    let inner = match part {
        BundlePart::Certificate => loc.cert_path(),
        BundlePart::Key => loc.key_path(),
    };
    let target = joined("../", inner.as_str());
    Link { path, target }
}

/// The two links `<dest>.key` and `<dest>.crt` to the parts of the bundle at
/// `source`, key first.
pub fn bundle_links(source: &Location, dest: &str) -> (r: (Link, Link))
    ensures
        r.0.path@ == dest@ + ".key"@,
        r.0.target@ == spec_key_path(source.dir@, source.name@),
        r.1.path@ == dest@ + ".crt"@,
        r.1.target@ == spec_cert_path(source.dir@, source.name@),
{
    let key = Link { path: joined(dest, ".key"), target: source.key_path() };
    let crt = Link { path: joined(dest, ".crt"), target: source.cert_path() };
    (key, crt)
}

/// What a link's path holds before the link is made.
#[derive(Clone, Copy, Debug, PartialEq, Eq, Structural)]
pub enum PathState {
    Absent,
    Reference,
    RegularFile,
}

#[derive(Clone, Copy, Debug, PartialEq, Eq, Structural)]
pub enum LinkAction {
    Create,
    /// Replace the existing reference in one step.
    Replace,
}

/// A missing path is created, a reference replaced; a regular file is never
/// overwritten.
pub fn link_action(state: PathState) -> (r: Result<LinkAction, PkiError>)
    ensures
        state == PathState::Absent ==> r == Ok::<LinkAction, PkiError>(LinkAction::Create),
        state == PathState::Reference ==> r == Ok::<LinkAction, PkiError>(LinkAction::Replace),
        state == PathState::RegularFile ==> r == Err::<LinkAction, PkiError>(
            PkiError::UnexpectedRegularFile,
        ),
{
    match state {
        PathState::Absent => Ok(LinkAction::Create),
        PathState::Reference => Ok(LinkAction::Replace),
        PathState::RegularFile => Err(PkiError::UnexpectedRegularFile),
    }
}

} // verus!
