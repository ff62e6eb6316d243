//! The certificates of a new cluster, in issuing order.

use vstd::prelude::*;
use crate::catalog::{same_instance, spec_profile, CaIdentity, CertKind, ClusterSettings, Instance, ProfileView, User};
use crate::layout::{spec_leaf_dir, spec_leaf_name, spec_instance_dir};
use crate::text::{copy_opt, opt_view};

verus! {

/// The configured cluster, as the engine needs it.
#[derive(Clone, Debug)]
pub struct ClusterConfig {
    pub settings: ClusterSettings,
    pub workers: Vec<Instance>,
    pub etcd_servers: Vec<Instance>,
    pub users: Vec<User>,
    pub etcd_users: Vec<String>,
}

/// `x` is the client certificate of an instance holding `i`'s values.
pub open spec fn kubelet_of(x: CertKind, i: Instance) -> bool {
    x matches CertKind::Kubelet(a) && same_instance(a, i)
}

pub open spec fn kubelet_server_of(x: CertKind, i: Instance) -> bool {
    x matches CertKind::KubeletServer(a) && same_instance(a, i)
}

pub open spec fn etcd_server_of(x: CertKind, i: Instance) -> bool {
    x matches CertKind::EtcdServer(a) && same_instance(a, i)
}

pub open spec fn user_of(x: CertKind, u: User) -> bool {
    x matches CertKind::User(a) && a.username@ == u.username@ && opt_view(a.group) == opt_view(
        u.group,
    )
}

pub open spec fn etcd_user_of(x: CertKind, name: String) -> bool {
    x matches CertKind::EtcdUser(a) && a@ == name@
}

/// The control-plane kinds, issued after every per-instance and per-user
/// certificate.
pub open spec fn control_plane_kinds() -> Seq<CertKind> {
    seq![
        CertKind::Admin,
        CertKind::ApiServer,
        CertKind::ApiServerClient,
        CertKind::ApiServerEtcdClient,
        CertKind::ControllerManager,
        CertKind::Scheduler,
        CertKind::FrontProxyClient,
        CertKind::Proxy,
    ]
}

/// `r` lists the leaf certificates of a new cluster in issuing order: for
/// each worker its client and serving certificate, then one serving
/// certificate per etcd server, one per user, one per etcd user, and last
/// the control-plane certificates.
pub open spec fn is_leaf_plan(c: ClusterConfig, r: Seq<CertKind>) -> bool {
    let w = c.workers@.len();
    let e = c.etcd_servers@.len();
    let u = c.users@.len();
    let n = c.etcd_users@.len();
    &&& r.len() == 2 * w + e + u + n + 8
    &&& forall|k: int|
        0 <= k < w ==> kubelet_of(#[trigger] r[2 * k], c.workers@[k])
    &&& forall|k: int|
        0 <= k < w ==> kubelet_server_of(#[trigger] r[2 * k + 1], c.workers@[k])
    &&& forall|k: int|
        0 <= k < e ==> etcd_server_of(#[trigger] r[2 * w + k], c.etcd_servers@[k])
    &&& forall|k: int|
        0 <= k < u ==> user_of(#[trigger] r[2 * w + e + k], c.users@[k])
    &&& forall|k: int|
        0 <= k < n ==> etcd_user_of(#[trigger] r[2 * w + e + u + k], c.etcd_users@[k])
    &&& r.subrange((2 * w + e + u + n) as int, r.len() as int) == control_plane_kinds()
}

/// The leaf certificates that the `new` command issues, in order.
pub fn leaf_plan(c: &ClusterConfig) -> (r: Vec<CertKind>)
    requires
        2 * c.workers@.len() + c.etcd_servers@.len() + c.users@.len() + c.etcd_users@.len() + 8
            <= usize::MAX,
    ensures
        is_leaf_plan(*c, r@),
{
    let mut r: Vec<CertKind> = Vec::new();
    let mut k: usize = 0;
    while k < c.workers.len()
        invariant
            k <= c.workers@.len(),
            r@.len() == 2 * k,
            forall|j: int|
                0 <= j < k ==> kubelet_of(#[trigger] r@[2 * j], c.workers@[j]),
            forall|j: int|
                0 <= j < k ==> kubelet_server_of(#[trigger] r@[2 * j + 1], c.workers@[j]),
        decreases c.workers@.len() - k,
    {
        r.push(CertKind::Kubelet(c.workers[k].duplicate()));
        r.push(CertKind::KubeletServer(c.workers[k].duplicate()));
        k += 1;
    }
    let ghost base = r@;
    let w = c.workers.len();
    k = 0;
    while k < c.etcd_servers.len()
        invariant
            w == c.workers@.len(),
            k <= c.etcd_servers@.len(),
            r@.len() == 2 * w + k,
            r@.subrange(0, 2 * w as int) == base,
            forall|j: int|
                0 <= j < k ==> etcd_server_of(#[trigger] r@[2 * w + j], c.etcd_servers@[j]),
        decreases c.etcd_servers@.len() - k,
    {
        r.push(CertKind::EtcdServer(c.etcd_servers[k].duplicate()));
        k += 1;
        assert(r@.subrange(0, 2 * w as int) =~= base);
    }
    let ghost base2 = r@;
    let e = c.etcd_servers.len();
    k = 0;
    while k < c.users.len()
        invariant
            w == c.workers@.len(),
            e == c.etcd_servers@.len(),
            k <= c.users@.len(),
            r@.len() == 2 * w + e + k,
            r@.subrange(0, 2 * w + e) == base2,
            forall|j: int|
                0 <= j < k ==> user_of(#[trigger] r@[2 * w + e + j], c.users@[j]),
        decreases c.users@.len() - k,
    {
        let user = User {
            username: c.users[k].username.clone(),
            group: copy_opt(&c.users[k].group),
        };
        r.push(CertKind::User(user));
        k += 1;
        assert(r@.subrange(0, 2 * w + e) =~= base2);
    }
    let ghost base3 = r@;
    let u = c.users.len();
    k = 0;
    while k < c.etcd_users.len()
        invariant
            w == c.workers@.len(),
            e == c.etcd_servers@.len(),
            u == c.users@.len(),
            k <= c.etcd_users@.len(),
            r@.len() == 2 * w + e + u + k,
            r@.subrange(0, 2 * w + e + u) == base3,
            forall|j: int|
                0 <= j < k ==> etcd_user_of(#[trigger] r@[2 * w + e + u + j], c.etcd_users@[j]),
        decreases c.etcd_users@.len() - k,
    {
        r.push(CertKind::EtcdUser(c.etcd_users[k].clone()));
        k += 1;
        assert(r@.subrange(0, 2 * w + e + u) =~= base3);
    }
    let ghost base4 = r@;
    r.push(CertKind::Admin);
    r.push(CertKind::ApiServer);
    r.push(CertKind::ApiServerClient);
    r.push(CertKind::ApiServerEtcdClient);
    r.push(CertKind::ControllerManager);
    r.push(CertKind::Scheduler);
    r.push(CertKind::FrontProxyClient);
    r.push(CertKind::Proxy);
    proof {
        let n = c.etcd_users@.len();
        assert(r@.subrange(0, base4.len() as int) =~= base4);
        assert(r@.subrange(2 * w + e + u + n, r@.len() as int) =~= control_plane_kinds());
        assert forall|j: int| 0 <= j < w implies kubelet_of(#[trigger] r@[2 * j], c.workers@[j]) by {
            assert(r@[2 * j] == base[2 * j]);
        }
        assert forall|j: int| 0 <= j < w implies kubelet_server_of(#[trigger] r@[2 * j + 1], c.workers@[j]) by {
            assert(r@[2 * j + 1] == base[2 * j + 1]);
        }
        assert forall|j: int| 0 <= j < e implies etcd_server_of(#[trigger] r@[2 * w + j], c.etcd_servers@[j]) by {
            assert(r@[2 * w + j] == base2[2 * w + j]);
        }
        assert forall|j: int| 0 <= j < u implies user_of(#[trigger] r@[2 * w + e + j], c.users@[j]) by {
            assert(r@[2 * w + e + j] == base3[2 * w + e + j]);
        }
    }
    r
}

/// Instances that hold the same values get the same profiles and the same
/// locations, whatever else is configured.
pub proof fn instance_profiles_depend_on_values(a: Instance, b: Instance, s: ClusterSettings)
    requires
        same_instance(a, b),
    ensures
        spec_profile(CertKind::Kubelet(a), s) == spec_profile(CertKind::Kubelet(b), s),
        spec_profile(CertKind::KubeletServer(a), s) == spec_profile(CertKind::KubeletServer(b), s),
        spec_profile(CertKind::EtcdServer(a), s) == spec_profile(CertKind::EtcdServer(b), s),
        spec_instance_dir(a) == spec_instance_dir(b),
{
}

/// Reordering the instances of a configuration changes no issued
/// certificate: a worker at position `k` of one configuration and at `j` of
/// another, with equal settings, gets the same client and serving profiles
/// and locations from both plans; likewise an etcd server at `k` and `j`.
pub proof fn reordering_keeps_certificates(
    c1: ClusterConfig,
    c2: ClusterConfig,
    r1: Seq<CertKind>,
    r2: Seq<CertKind>,
    k: int,
    j: int,
)
    requires
        is_leaf_plan(c1, r1),
        is_leaf_plan(c2, r2),
        c1.settings == c2.settings,
    ensures
        0 <= k < c1.workers@.len() && 0 <= j < c2.workers@.len() && same_instance(
            c1.workers@[k],
            c2.workers@[j],
        ) ==> {
            &&& spec_profile(r1[2 * k], c1.settings) == spec_profile(r2[2 * j], c2.settings)
            &&& spec_profile(r1[2 * k + 1], c1.settings) == spec_profile(r2[2 * j + 1], c2.settings)
            &&& spec_leaf_dir(r1[2 * k]) == spec_leaf_dir(r2[2 * j])
            &&& spec_leaf_name(r1[2 * k]) == spec_leaf_name(r2[2 * j])
            &&& spec_leaf_dir(r1[2 * k + 1]) == spec_leaf_dir(r2[2 * j + 1])
            &&& spec_leaf_name(r1[2 * k + 1]) == spec_leaf_name(r2[2 * j + 1])
        },
        0 <= k < c1.etcd_servers@.len() && 0 <= j < c2.etcd_servers@.len() && same_instance(
            c1.etcd_servers@[k],
            c2.etcd_servers@[j],
        ) ==> {
            let pos_a = 2 * c1.workers@.len() + k;
            let pos_b = 2 * c2.workers@.len() + j;
            &&& spec_profile(r1[pos_a], c1.settings) == spec_profile(r2[pos_b], c2.settings)
            &&& spec_leaf_dir(r1[pos_a]) == spec_leaf_dir(r2[pos_b])
            &&& spec_leaf_name(r1[pos_a]) == spec_leaf_name(r2[pos_b])
        },
{
    if 0 <= k < c1.workers@.len() && 0 <= j < c2.workers@.len() && same_instance(
        c1.workers@[k],
        c2.workers@[j],
    ) {
        assert(kubelet_of(r1[2 * k], c1.workers@[k]));
        assert(kubelet_of(r2[2 * j], c2.workers@[j]));
        assert(kubelet_server_of(r1[2 * k + 1], c1.workers@[k]));
        assert(kubelet_server_of(r2[2 * j + 1], c2.workers@[j]));
    }
    if 0 <= k < c1.etcd_servers@.len() && 0 <= j < c2.etcd_servers@.len() && same_instance(
        c1.etcd_servers@[k],
        c2.etcd_servers@[j],
    ) {
        let pos_a = 2 * c1.workers@.len() + k;
        let pos_b = 2 * c2.workers@.len() + j;
        assert(etcd_server_of(r1[pos_a], c1.etcd_servers@[k]));
        assert(etcd_server_of(r2[pos_b], c2.etcd_servers@[j]));
    }
}

/// What an entry of a plan puts on storage: its directory, its name and the
/// profile of its certificate.
pub open spec fn stored(k: CertKind, s: ClusterSettings) -> (Seq<char>, Seq<char>, ProfileView) {
    (spec_leaf_dir(k), spec_leaf_name(k), spec_profile(k, s))
}

/// Everything a plan puts on storage.
pub open spec fn plan_contents(r: Seq<CertKind>, s: ClusterSettings) -> Set<
    (Seq<char>, Seq<char>, ProfileView),
> {
    Set::new(
        |e: (Seq<char>, Seq<char>, ProfileView)|
            exists|p: int| 0 <= p < r.len() && #[trigger] stored(r[p], s) == e,
    )
}

/// The links a new cluster makes in instance directories: each worker's
/// directory refers to the root, each etcd server's to the etcd authority.
pub open spec fn instance_links(c: ClusterConfig) -> Set<(Seq<char>, CaIdentity)> {
    Set::new(
        |e: (Seq<char>, CaIdentity)|
            (e.1 == CaIdentity::Root && exists|k: int|
                0 <= k < c.workers@.len() && #[trigger] spec_instance_dir(c.workers@[k]) == e.0)
                || (e.1 == CaIdentity::Etcd && exists|k: int|
                0 <= k < c.etcd_servers@.len() && #[trigger] spec_instance_dir(c.etcd_servers@[k])
                    == e.0),
    )
}

/// Each instance of `a` has one holding the same values in `b`.
pub open spec fn covered(a: Seq<Instance>, b: Seq<Instance>) -> bool {
    forall|k: int|
        0 <= k < a.len() ==> exists|j: int| 0 <= j < b.len() && same_instance(#[trigger] a[k], b[j])
}

/// `b` holds the instances of `a` in some order: as many, and each of either
/// list has one holding the same values in the other.
pub open spec fn same_members(a: Seq<Instance>, b: Seq<Instance>) -> bool {
    &&& a.len() == b.len()
    &&& covered(a, b)
    &&& covered(b, a)
}

proof fn lemma_matching_entry(
    c1: ClusterConfig,
    c2: ClusterConfig,
    r1: Seq<CertKind>,
    r2: Seq<CertKind>,
    p: int,
) -> (q: int)
    requires
        is_leaf_plan(c1, r1),
        is_leaf_plan(c2, r2),
        c1.settings == c2.settings,
        c1.workers@.len() == c2.workers@.len(),
        c1.etcd_servers@.len() == c2.etcd_servers@.len(),
        covered(c1.workers@, c2.workers@),
        covered(c1.etcd_servers@, c2.etcd_servers@),
        c1.users@ == c2.users@,
        c1.etcd_users@ == c2.etcd_users@,
        0 <= p < r1.len(),
    ensures
        0 <= q < r2.len(),
        stored(r2[q], c2.settings) == stored(r1[p], c1.settings),
{
    let w = c1.workers@.len() as int;
    let e = c1.etcd_servers@.len() as int;
    let u = c1.users@.len() as int;
    let n = c1.etcd_users@.len() as int;
    if p < 2 * w {
        let k = p / 2;
        assert(p == 2 * k || p == 2 * k + 1);
        assert(c1.workers@[k] == c1.workers@[k]);
        let j = choose|j: int|
            0 <= j < c2.workers@.len() && same_instance(c1.workers@[k], c2.workers@[j]);
        reordering_keeps_certificates(c1, c2, r1, r2, k, j);
        if p == 2 * k {
            2 * j
        } else {
            2 * j + 1
        }
    } else if p < 2 * w + e {
        let k = p - 2 * w;
        assert(c1.etcd_servers@[k] == c1.etcd_servers@[k]);
        let j = choose|j: int|
            0 <= j < c2.etcd_servers@.len() && same_instance(
                c1.etcd_servers@[k],
                c2.etcd_servers@[j],
            );
        reordering_keeps_certificates(c1, c2, r1, r2, k, j);
        2 * w + j
    } else if p < 2 * w + e + u {
        let k = p - 2 * w - e;
        assert(user_of(r1[2 * w + e + k], c1.users@[k]));
        assert(user_of(r2[2 * w + e + k], c2.users@[k]));
        p
    } else if p < 2 * w + e + u + n {
        let k = p - 2 * w - e - u;
        assert(etcd_user_of(r1[2 * w + e + u + k], c1.etcd_users@[k]));
        assert(etcd_user_of(r2[2 * w + e + u + k], c2.etcd_users@[k]));
        p
    } else {
        let base = 2 * w + e + u + n;
        assert(r1[p] == r1.subrange(base, r1.len() as int)[p - base]);
        assert(r2[p] == r2.subrange(base, r2.len() as int)[p - base]);
        p
    }
}

/// Reordering the workers and the etcd servers of a configuration, with all
/// else equal, changes nothing that a new cluster stores: both plans put the
/// same certificates (directory, name and profile) on storage, and the same
/// instance directories get the same links.
pub proof fn reordering_keeps_cluster(
    c1: ClusterConfig,
    c2: ClusterConfig,
    r1: Seq<CertKind>,
    r2: Seq<CertKind>,
)
    requires
        is_leaf_plan(c1, r1),
        is_leaf_plan(c2, r2),
        c1.settings == c2.settings,
        same_members(c1.workers@, c2.workers@),
        same_members(c1.etcd_servers@, c2.etcd_servers@),
        c1.users@ == c2.users@,
        c1.etcd_users@ == c2.etcd_users@,
    ensures
        plan_contents(r1, c1.settings) == plan_contents(r2, c2.settings),
        instance_links(c1) == instance_links(c2),
{
    assert forall|x: (Seq<char>, Seq<char>, ProfileView)|
        plan_contents(r1, c1.settings).contains(x) implies plan_contents(
            r2,
            c2.settings,
        ).contains(x) by {
        let p = choose|p: int| 0 <= p < r1.len() && #[trigger] stored(r1[p], c1.settings) == x;
        let q = lemma_matching_entry(c1, c2, r1, r2, p);
        assert(stored(r2[q], c2.settings) == x);
    }
    assert forall|x: (Seq<char>, Seq<char>, ProfileView)|
        plan_contents(r2, c2.settings).contains(x) implies plan_contents(
            r1,
            c1.settings,
        ).contains(x) by {
        let p = choose|p: int| 0 <= p < r2.len() && #[trigger] stored(r2[p], c2.settings) == x;
        let q = lemma_matching_entry(c2, c1, r2, r1, p);
        assert(stored(r1[q], c1.settings) == x);
    }
    assert(plan_contents(r1, c1.settings) =~= plan_contents(r2, c2.settings));
    assert forall|x: (Seq<char>, CaIdentity)| instance_links(c1).contains(x) <==> instance_links(
        c2,
    ).contains(x) by {
        if x.1 == CaIdentity::Root {
            if exists|k: int| 0 <= k < c1.workers@.len() && #[trigger] spec_instance_dir(c1.workers@[k]) == x.0 {
                let k = choose|k: int| 0 <= k < c1.workers@.len() && #[trigger] spec_instance_dir(c1.workers@[k]) == x.0;
                assert(c1.workers@[k] == c1.workers@[k]);
                let j = choose|j: int| 0 <= j < c2.workers@.len() && same_instance(c1.workers@[k], c2.workers@[j]);
                assert(spec_instance_dir(c2.workers@[j]) == x.0);
            }
            if exists|k: int| 0 <= k < c2.workers@.len() && #[trigger] spec_instance_dir(c2.workers@[k]) == x.0 {
                let k = choose|k: int| 0 <= k < c2.workers@.len() && #[trigger] spec_instance_dir(c2.workers@[k]) == x.0;
                assert(c2.workers@[k] == c2.workers@[k]);
                let j = choose|j: int| 0 <= j < c1.workers@.len() && same_instance(c2.workers@[k], c1.workers@[j]);
                assert(spec_instance_dir(c1.workers@[j]) == x.0);
            }
        }
        if x.1 == CaIdentity::Etcd {
            if exists|k: int| 0 <= k < c1.etcd_servers@.len() && #[trigger] spec_instance_dir(c1.etcd_servers@[k]) == x.0 {
                let k = choose|k: int| 0 <= k < c1.etcd_servers@.len() && #[trigger] spec_instance_dir(c1.etcd_servers@[k]) == x.0;
                assert(c1.etcd_servers@[k] == c1.etcd_servers@[k]);
                let j = choose|j: int| 0 <= j < c2.etcd_servers@.len() && same_instance(c1.etcd_servers@[k], c2.etcd_servers@[j]);
                assert(spec_instance_dir(c2.etcd_servers@[j]) == x.0);
            }
            if exists|k: int| 0 <= k < c2.etcd_servers@.len() && #[trigger] spec_instance_dir(c2.etcd_servers@[k]) == x.0 {
                let k = choose|k: int| 0 <= k < c2.etcd_servers@.len() && #[trigger] spec_instance_dir(c2.etcd_servers@[k]) == x.0;
                assert(c2.etcd_servers@[k] == c2.etcd_servers@[k]);
                let j = choose|j: int| 0 <= j < c1.etcd_servers@.len() && same_instance(c2.etcd_servers@[k], c1.etcd_servers@[j]);
                assert(spec_instance_dir(c1.etcd_servers@[j]) == x.0);
            }
        }
    }
    assert(instance_links(c1) =~= instance_links(c2));
}

} // verus!
