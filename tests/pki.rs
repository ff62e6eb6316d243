use cert_machine::authority::CA;
use cert_machine::bootstrap::{
    bootstrap_order, create_ca, etcd_server_link, master_links, worker_link, Hierarchy, Presence,
};
use cert_machine::catalog::{
    CaIdentity, CaKeyUsage, CertKind, ClusterSettings, ExtKeyUsage, Instance, KeyUsage, User,
};
use cert_machine::error::PkiError;
use cert_machine::index::{index_text, parse_index};
use cert_machine::layout::{
    bundle_links, ca_location, index_path, leaf_location, link_action, LinkAction, Location,
    PathState,
};
use cert_machine::ledger::CaLedger;
use cert_machine::plan::{leaf_plan, ClusterConfig};
use cert_machine::selector::{find_instance, parse_selector, resolve_selector, FixedKind, Selector};

fn host(name: &str) -> Instance {
    Instance {
        hostname: name.to_string(),
        filename: None,
        ip_addresses: vec!["10.0.0.5".to_string()],
        dns_names: vec![],
    }
}

fn settings() -> ClusterSettings {
    ClusterSettings {
        cluster_name: "test".to_string(),
        apiserver_dns_names: vec!["api.test".to_string()],
        apiserver_ip_addresses: vec!["10.0.0.1".to_string()],
        ca_validity_days: 3650,
        leaf_validity_days: 365,
    }
}

fn all_kinds() -> Vec<CertKind> {
    vec![
        CertKind::Kubelet(host("n")),
        CertKind::KubeletServer(host("n")),
        CertKind::EtcdServer(host("e")),
        CertKind::EtcdPeer(host("e")),
        CertKind::EtcdUser("u".to_string()),
        CertKind::Admin,
        CertKind::User(User { username: "alice".to_string(), group: None }),
        CertKind::ApiServer,
        CertKind::ApiServerClient,
        CertKind::ApiServerEtcdClient,
        CertKind::ControllerManager,
        CertKind::Scheduler,
        CertKind::FrontProxyClient,
        CertKind::Proxy,
    ]
}

fn config(workers: Vec<Instance>) -> ClusterConfig {
    ClusterConfig {
        settings: settings(),
        workers,
        etcd_servers: vec![host("etcd-1")],
        users: vec![User { username: "alice".to_string(), group: Some("system:masters".to_string()) }],
        etcd_users: vec![],
    }
}

#[test]
fn server_kinds_get_server_auth_only() {
    for kind in all_kinds() {
        let server = matches!(
            kind,
            CertKind::KubeletServer(_) | CertKind::EtcdServer(_) | CertKind::ApiServer
        );
        let p = kind.resolve(&settings());
        if server {
            assert_eq!(p.ext_key_usage, ExtKeyUsage::ServerAuth);
            assert_eq!(p.key_usage, KeyUsage { digital_signature: true, key_encipherment: true });
        } else {
            assert_eq!(p.ext_key_usage, ExtKeyUsage::ClientAuth);
            assert_eq!(p.key_usage, KeyUsage { digital_signature: true, key_encipherment: false });
        }
        assert_eq!(p.validity_days, 365);
    }
}

#[test]
fn issuers_of_kinds() {
    assert_eq!(CertKind::Kubelet(host("n")).issuer(), CaIdentity::Root);
    assert_eq!(CertKind::EtcdServer(host("e")).issuer(), CaIdentity::Etcd);
    assert_eq!(CertKind::EtcdUser("u".to_string()).issuer(), CaIdentity::Etcd);
    assert_eq!(CertKind::ApiServerEtcdClient.issuer(), CaIdentity::Etcd);
    assert_eq!(CertKind::FrontProxyClient.issuer(), CaIdentity::FrontProxy);
    assert_eq!(CertKind::Admin.issuer(), CaIdentity::Root);
}

#[test]
fn kubelet_profile_names_the_node() {
    let mut i = host("node-1");
    i.dns_names = vec!["node-1.local".to_string()];
    let p = CertKind::Kubelet(i).resolve(&settings());
    assert_eq!(p.common_name, "system:node:node-1");
    assert_eq!(p.organization, Some("system:nodes".to_string()));
    assert_eq!(p.dns_names, vec!["node-1".to_string(), "node-1.local".to_string()]);
    assert_eq!(p.ip_addresses, vec!["10.0.0.5".to_string()]);
}

#[test]
fn server_profiles_include_loopback() {
    let p = CertKind::EtcdServer(host("etcd-1")).resolve(&settings());
    assert_eq!(p.common_name, "etcd-1");
    assert_eq!(p.dns_names, vec!["localhost".to_string(), "etcd-1".to_string()]);
    assert_eq!(p.ip_addresses, vec!["127.0.0.1".to_string(), "10.0.0.5".to_string()]);
    let a = CertKind::ApiServer.resolve(&settings());
    assert_eq!(a.common_name, "kube-apiserver");
    assert_eq!(a.dns_names.len(), 5);
    assert_eq!(a.dns_names[4], "api.test");
    assert_eq!(a.ip_addresses, vec!["127.0.0.1".to_string(), "10.0.0.1".to_string()]);
    assert!(CertKind::Admin.resolve(&settings()).dns_names.is_empty());
}

#[test]
fn user_profile_carries_group() {
    let u = User { username: "alice".to_string(), group: Some("system:masters".to_string()) };
    let p = CertKind::User(u).resolve(&settings());
    assert_eq!(p.common_name, "alice");
    assert_eq!(p.organization, Some("system:masters".to_string()));
    assert_eq!(p.issuer, CaIdentity::Root);
}

#[test]
fn ca_signers() {
    let s = settings();
    let root = CaIdentity::Root.ca_profile(&s);
    assert_eq!(root.signer, None);
    assert_eq!(root.common_name, "test");
    assert_eq!(root.validity_days, 3650);
    assert!(root.is_ca);
    assert_eq!(root.key_usage, CaKeyUsage { cert_sign: true, crl_sign: true, digital_signature: true });
    assert_eq!(CaIdentity::Etcd.ca_profile(&s).signer, Some(CaIdentity::Root));
    assert_eq!(CaIdentity::FrontProxy.ca_profile(&s).signer, Some(CaIdentity::Root));
    assert_eq!(CaIdentity::FrontProxy.ca_profile(&s).common_name, "front-proxy-ca");
}

#[test]
fn create_ca_needs_root() {
    let s = settings();
    assert_eq!(create_ca(CaIdentity::Etcd, &s, false, false, false).err(), Some(PkiError::MissingIssuer));
    assert_eq!(create_ca(CaIdentity::Root, &s, false, true, false).err(), Some(PkiError::AlreadyExists));
    let (p, l) = create_ca(CaIdentity::Etcd, &s, true, false, false).unwrap();
    assert_eq!(p.signer, Some(CaIdentity::Root));
    assert_eq!(l.counter, 0);
    assert!(create_ca(CaIdentity::Root, &s, false, true, true).is_ok());
}

#[test]
fn bootstrap_refuses_existing_authority() {
    let none = Presence { root: false, etcd: false, front_proxy: false };
    let order = bootstrap_order(none, false).unwrap();
    assert_eq!(order, vec![CaIdentity::Root, CaIdentity::Etcd, CaIdentity::FrontProxy]);
    let some = Presence { root: false, etcd: true, front_proxy: false };
    assert_eq!(bootstrap_order(some, false).err(), Some(PkiError::AlreadyExists));
    assert!(bootstrap_order(some, true).is_ok());
}

#[test]
fn serials_increase_across_calls() {
    let mut l = CaLedger::new(CaIdentity::Root);
    let mut seen = Vec::new();
    for _ in 0..5 {
        seen.push(l.next_serial().unwrap());
    }
    assert_eq!(seen, vec![1, 2, 3, 4, 5]);
    assert_eq!(l.counter, 5);
    let mut full = CaLedger::open(CaIdentity::Root, u64::MAX);
    assert_eq!(full.next_serial(), Err(PkiError::SerialExhausted));
    assert_eq!(full.counter, u64::MAX);
}

#[test]
fn reissue_without_overwrite_fails() {
    let s = settings();
    let mut l = CaLedger::new(CaIdentity::Root);
    let kind = CertKind::Kubelet(host("node-1"));
    let first = l.issue(&kind, &s, false, false).unwrap();
    assert_eq!(first.serial, 1);
    assert_eq!(first.profile.common_name, "system:node:node-1");
    let again = l.issue(&kind, &s, false, false);
    assert_eq!(again.err(), Some(PkiError::AlreadyExists));
    assert_eq!(l.counter, 1);
    let second = l.issue(&kind, &s, false, true).unwrap();
    assert!(second.serial > first.serial);
    assert_eq!(l.issued.len(), 2);
}

#[test]
fn existing_file_blocks_issue() {
    let s = settings();
    let mut l = CaLedger::new(CaIdentity::Root);
    assert_eq!(l.issue(&CertKind::Admin, &s, true, false).err(), Some(PkiError::AlreadyExists));
    assert_eq!(l.counter, 0);
    assert!(l.issue(&CertKind::Admin, &s, true, true).is_ok());
}

#[test]
fn wrong_authority_is_missing_issuer() {
    let s = settings();
    let mut l = CaLedger::new(CaIdentity::Etcd);
    assert_eq!(l.issue(&CertKind::Admin, &s, false, false).err(), Some(PkiError::MissingIssuer));
}

#[test]
fn ca_routes_to_issuer() {
    let s = settings();
    let mut ca = CA::open(0, 10, 20);
    let o = ca.issue(&CertKind::EtcdServer(host("etcd-1")), &s, false, false).unwrap();
    assert_eq!(o.serial, 11);
    assert_eq!(ca.etcd_ca.counter, 11);
    assert_eq!(ca.main_ca.counter, 0);
    let f = ca.issue(&CertKind::FrontProxyClient, &s, false, false).unwrap();
    assert_eq!(f.serial, 21);
}

#[test]
fn selectors_parse() {
    assert!(matches!(parse_selector("admin"), Ok(Selector::Fixed(FixedKind::Admin))));
    assert!(matches!(parse_selector("front-proxy-client"), Ok(Selector::Fixed(FixedKind::FrontProxyClient))));
    match parse_selector("kubelet:node-1") {
        Ok(Selector::Kubelet(h)) => assert_eq!(h, "node-1"),
        _ => panic!("not a kubelet selector"),
    }
    match parse_selector("etcd-user:bob") {
        Ok(Selector::EtcdUser(u)) => assert_eq!(u, "bob"),
        _ => panic!("not an etcd user selector"),
    }
    match parse_selector("etcd:etcd-1") {
        Ok(Selector::Etcd(h)) => assert_eq!(h, "etcd-1"),
        _ => panic!("not an etcd selector"),
    }
    assert_eq!(parse_selector("bogus").err(), Some(PkiError::UnknownCertificateKind));
    assert_eq!(parse_selector("kubelet").err(), Some(PkiError::UnknownCertificateKind));
}

#[test]
fn unknown_hostname_is_refused() {
    let workers = vec![host("node-1")];
    let sel = parse_selector("kubelet:node-9").unwrap();
    assert_eq!(resolve_selector(&sel, &workers, &vec![]).err(), Some(PkiError::NoSuchHostname));
    let sel = parse_selector("etcd:node-1").unwrap();
    assert_eq!(resolve_selector(&sel, &workers, &vec![]).err(), Some(PkiError::NoSuchHostname));
    let sel = parse_selector("kubelet:node-1").unwrap();
    let kinds = resolve_selector(&sel, &workers, &vec![]).unwrap();
    assert_eq!(kinds.len(), 2);
    assert!(matches!(&kinds[0], CertKind::Kubelet(i) if i.hostname == "node-1"));
    assert!(matches!(&kinds[1], CertKind::KubeletServer(i) if i.hostname == "node-1"));
    assert_eq!(find_instance(&vec![host("a"), host("b")], "b"), Some(1));
    assert_eq!(find_instance(&vec![host("b"), host("a"), host("b")], "b"), Some(2));
    assert_eq!(find_instance(&vec![host("a")], "c"), None);
}

#[test]
fn layout_paths() {
    let root = ca_location(CaIdentity::Root);
    assert_eq!(root.cert_path(), "CA/root/certs/ca.crt");
    assert_eq!(root.key_path(), "CA/root/keys/ca.key");
    assert_eq!(ca_location(CaIdentity::FrontProxy).cert_path(), "CA/front-proxy/certs/ca.crt");
    assert_eq!(index_path(CaIdentity::Etcd), "CA/etcd/index");
    let mut i = host("node-1");
    assert_eq!(leaf_location(&CertKind::Kubelet(i.clone())).cert_path(), "node-1/certs/kubelet.crt");
    i.filename = Some("worker-a".to_string());
    assert_eq!(leaf_location(&CertKind::KubeletServer(i)).key_path(), "worker-a/keys/kubelet-server.key");
    let user = CertKind::User(User { username: "alice".to_string(), group: None });
    assert_eq!(leaf_location(&user).cert_path(), "users/certs/alice.crt");
}

#[test]
fn link_decisions() {
    assert_eq!(link_action(PathState::Absent), Ok(LinkAction::Create));
    assert_eq!(link_action(PathState::Reference), Ok(LinkAction::Replace));
    assert_eq!(link_action(PathState::RegularFile), Err(PkiError::UnexpectedRegularFile));
}

#[test]
fn reference_links() {
    let links = master_links();
    assert_eq!(links.len(), 5);
    assert_eq!(links[0].path, "master/ca.crt");
    assert_eq!(links[0].target, "../CA/root/certs/ca.crt");
    assert_eq!(links[4].path, "master/front-proxy-ca.key");
    assert_eq!(links[4].target, "../CA/front-proxy/keys/ca.key");
    let src = Location { dir: "CA/root".to_string(), name: "ca".to_string() };
    let (k, c) = bundle_links(&src, "out/ca");
    assert_eq!(k.path, "out/ca.key");
    assert_eq!(k.target, "CA/root/keys/ca.key");
    assert_eq!(c.path, "out/ca.crt");
    assert_eq!(c.target, "CA/root/certs/ca.crt");
}

#[test]
fn new_cluster_scenario() {
    let c = config(vec![host("node-1")]);
    let order = bootstrap_order(Presence { root: false, etcd: false, front_proxy: false }, false).unwrap();
    let mut h = Hierarchy::new();
    for id in order.iter() {
        let made = h.create(*id, &c.settings, false, false).unwrap();
        assert_eq!(ca_location(made.profile.identity).dir, match id {
            CaIdentity::Root => "CA/root",
            CaIdentity::Etcd => "CA/etcd",
            CaIdentity::FrontProxy => "CA/front-proxy",
        });
    }
    let mut ca = h.into_ca().unwrap();
    assert_eq!(ca.main_ca.counter, 3);

    let wl = worker_link(&c.workers[0]);
    assert_eq!(wl.path, "node-1/ca.crt");
    assert_eq!(wl.target, "../CA/root/certs/ca.crt");
    let el = etcd_server_link(&c.etcd_servers[0]);
    assert_eq!(el.path, "etcd-1/etcd-ca.crt");
    assert_eq!(el.target, "../CA/etcd/certs/ca.crt");

    let plan = leaf_plan(&c);
    assert_eq!(plan.len(), 2 + 1 + 1 + 8);
    let mut orders = Vec::new();
    for kind in plan.iter() {
        orders.push(ca.issue(kind, &c.settings, false, false).unwrap());
    }
    assert_eq!(orders[0].location.cert_path(), "node-1/certs/kubelet.crt");
    assert_eq!(orders[0].profile.issuer, CaIdentity::Root);
    assert_eq!(orders[1].location.cert_path(), "node-1/certs/kubelet-server.crt");
    assert_eq!(orders[1].profile.issuer, CaIdentity::Root);
    assert_eq!(orders[2].location.cert_path(), "etcd-1/certs/etcd-server.crt");
    assert_eq!(orders[2].profile.issuer, CaIdentity::Etcd);
    assert_eq!(orders[3].location.cert_path(), "users/certs/alice.crt");
    assert_eq!(orders[3].profile.organization, Some("system:masters".to_string()));
    assert_eq!(orders[3].profile.issuer, CaIdentity::Root);
    assert_eq!(orders[3].profile.ext_key_usage, ExtKeyUsage::ClientAuth);
    assert_eq!(orders[0].serial, 4);
    assert_eq!(orders[1].serial, 5);
    assert_eq!(orders[2].serial, 1);
    assert_eq!(orders[3].serial, 6);
}

#[test]
fn reordering_workers_keeps_profiles() {
    let mut a = host("node-a");
    a.ip_addresses = vec!["10.0.0.7".to_string()];
    let b = host("node-b");
    let plan_ab = leaf_plan(&config(vec![a.clone(), b.clone()]));
    let plan_ba = leaf_plan(&config(vec![b, a]));
    let s = settings();
    let first = plan_ab[0].resolve(&s);
    let moved = plan_ba[2].resolve(&s);
    assert_eq!(first.common_name, moved.common_name);
    assert_eq!(first.ip_addresses, moved.ip_addresses);
    assert_eq!(first.dns_names, moved.dns_names);
    assert_eq!(leaf_location(&plan_ab[1]).cert_path(), leaf_location(&plan_ba[3]).cert_path());
    assert_eq!(plan_ab[1].resolve(&s).dns_names, plan_ba[3].resolve(&s).dns_names);
}

#[test]
fn index_text_round_trip() {
    assert_eq!(index_text(0), "0");
    assert_eq!(index_text(1234), "1234");
    assert_eq!(index_text(u64::MAX), "18446744073709551615");
    assert_eq!(parse_index("0"), Some(0));
    assert_eq!(parse_index("1234"), Some(1234));
    assert_eq!(parse_index("18446744073709551615"), Some(u64::MAX));
    assert_eq!(parse_index("18446744073709551616"), None);
    assert_eq!(parse_index(""), None);
    assert_eq!(parse_index("12a"), None);
    assert_eq!(parse_index(&index_text(987654321)), Some(987654321));
}

#[test]
fn hierarchy_serials_are_positive() {
    let s = settings();
    let mut h = Hierarchy::new();
    assert_eq!(h.create(CaIdentity::Etcd, &s, false, false).err(), Some(PkiError::MissingIssuer));
    let root = h.create(CaIdentity::Root, &s, false, false).unwrap();
    assert_eq!(root.serial, 1);
    assert_eq!(root.profile.signer, None);
    assert_eq!(root.counters, vec![(CaIdentity::Root, 1)]);
    let etcd = h.create(CaIdentity::Etcd, &s, false, false).unwrap();
    assert_eq!(etcd.serial, 2);
    assert_eq!(etcd.profile.signer, Some(CaIdentity::Root));
    assert_eq!(etcd.counters, vec![(CaIdentity::Root, 2), (CaIdentity::Etcd, 0)]);
    assert_eq!(h.create(CaIdentity::FrontProxy, &s, true, false).err(), Some(PkiError::AlreadyExists));
    let front = h.create(CaIdentity::FrontProxy, &s, true, true).unwrap();
    assert_eq!(front.serial, 3);
    let ca = h.into_ca().unwrap();
    assert_eq!(ca.main_ca.counter, 3);
    assert_eq!(ca.etcd_ca.counter, 0);
    assert_eq!(ca.front_ca.counter, 0);
}

#[test]
fn incomplete_hierarchy_is_no_ca() {
    let s = settings();
    let mut h = Hierarchy::new();
    h.create(CaIdentity::Root, &s, false, false).unwrap();
    assert!(h.into_ca().is_none());
}

#[test]
fn reordered_cluster_stores_the_same() {
    let mut b = host("node-b");
    b.filename = Some("worker-b".to_string());
    let forward = config(vec![host("node-a"), b.clone()]);
    let backward = config(vec![b, host("node-a")]);
    let s = settings();
    let contents = |c: &ClusterConfig| {
        let mut v: Vec<(String, String, Vec<String>)> = leaf_plan(c)
            .iter()
            .map(|k| {
                let p = k.resolve(&s);
                (leaf_location(k).cert_path(), p.common_name, p.dns_names)
            })
            .collect();
        v.sort();
        v
    };
    assert_eq!(contents(&forward), contents(&backward));
    let links = |c: &ClusterConfig| {
        let mut v: Vec<(String, String)> = c.workers.iter().map(worker_link).map(|l| (l.path, l.target)).collect();
        v.sort();
        v
    };
    assert_eq!(links(&forward), links(&backward));
    assert_eq!(links(&forward)[1], ("worker-b/ca.crt".to_string(), "../CA/root/certs/ca.crt".to_string()));
}
