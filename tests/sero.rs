use sero_operator::annotation::{
    get_type, has_scan_annotation, has_sero_annotation, namespace_change, workload_change,
    AppType, State, WatchEvent,
};
use sero_operator::derivation::{apply_annotation, po_to_cfg, to_config};
use sero_operator::operator_config::{DefaultSeroConfig, Settings, Timeout};
use sero_operator::reconcile::{
    reconcile_step, render_instance, sync_op, update_reapplies, ReconcileStep, SyncOp,
};
use sero_operator::registry::{
    namespace_action, static_namespace_events, NamespaceAction, WatcherRegistry,
};
use sero_operator::sero_config::{FormatError, SeroConfig, SeroConfigBuilder};
use sero_operator::text::bool_text;

fn anns(pairs: &[(&str, &str)]) -> Vec<(String, String)> {
    pairs.iter().map(|(k, v)| (k.to_string(), v.to_string())).collect()
}

fn defaults() -> DefaultSeroConfig {
    DefaultSeroConfig {
        image: "img".to_string(),
        inject: true,
        protocol: "TCP".to_string(),
        port: 80,
        timeout: Timeout { forward_ms: 2000, scale_up_ms: 7000, scale_down_ms: 7000 },
    }
}

fn config(service: &str, inject: bool, fwd: i64, up: i64, down: i64) -> SeroConfig {
    SeroConfig {
        image: "img".to_string(),
        service: service.to_string(),
        service_inject: inject,
        deployment: "foo".to_string(),
        timeout_forward_ms: fwd,
        timeout_scale_up_ms: up,
        timeout_scale_down_ms: down,
    }
}

#[test]
fn classify_not_managed_without_prefix() {
    assert_eq!(get_type(&anns(&[])), AppType::NotManaged);
    assert_eq!(get_type(&anns(&[("app", "x"), ("other.io/sero", "y")])), AppType::NotManaged);
}

#[test]
fn classify_managed_with_prefix() {
    assert_eq!(get_type(&anns(&[("beta.v1.sero/service", "svc")])), AppType::Managed);
    assert_eq!(get_type(&anns(&[("x.beta.v1.sero/anything", "")])), AppType::Managed);
}

#[test]
fn classify_generated_with_config_key() {
    assert_eq!(
        get_type(&anns(&[("beta.v1.sero/config", "{}"), ("app", "x")])),
        AppType::SeroSelf
    );
}

#[test]
fn classify_ignores_order() {
    let a = anns(&[("beta.v1.sero/config", "{}"), ("app", "x"), ("beta.v1.sero/inject", "true")]);
    let b = anns(&[("beta.v1.sero/inject", "false"), ("app", "y"), ("beta.v1.sero/config", "")]);
    assert_eq!(get_type(&a), get_type(&b));
    assert_eq!(get_type(&b), AppType::SeroSelf);
}

#[test]
fn generated_objects_publish_nothing() {
    let a = anns(&[("beta.v1.sero/config", "{}")]);
    assert!(workload_change(WatchEvent::Applied, 1u8, &a).is_none());
    assert!(workload_change(WatchEvent::Deleted, 1u8, &a).is_none());
}

#[test]
fn workload_routing_table() {
    let managed = anns(&[("beta.v1.sero/service", "svc")]);
    let plain = anns(&[("app", "x")]);
    let c = workload_change(WatchEvent::Applied, 7u8, &managed).unwrap();
    assert_eq!(c.object, 7u8);
    assert_eq!(c.state, State::Added);
    assert_eq!(workload_change(WatchEvent::Deleted, 7u8, &managed).unwrap().state, State::Deleted);
    assert_eq!(workload_change(WatchEvent::Applied, 7u8, &plain).unwrap().state, State::Deleted);
    assert_eq!(workload_change(WatchEvent::Deleted, 7u8, &plain).unwrap().state, State::Deleted);
}

#[test]
fn namespace_routing_table() {
    let marked = anns(&[("beta.v1.sero/scan", "true")]);
    let plain = anns(&[("team", "a")]);
    let c = namespace_change(WatchEvent::Applied, "ns1".to_string(), &marked).unwrap();
    assert_eq!(c.object, "ns1");
    assert_eq!(c.state, State::Added);
    assert_eq!(
        namespace_change(WatchEvent::Applied, "ns1".to_string(), &plain).unwrap().state,
        State::Deleted
    );
    assert_eq!(
        namespace_change(WatchEvent::Deleted, "ns1".to_string(), &marked).unwrap().state,
        State::Deleted
    );
    assert!(namespace_change(WatchEvent::Deleted, "ns1".to_string(), &plain).is_none());
}

#[test]
fn namespace_markers() {
    assert!(has_sero_annotation(&anns(&[("other.sero/x", "")])));
    assert!(!has_sero_annotation(&anns(&[("sero", "")])));
    assert!(has_scan_annotation(&anns(&[("beta.v1.sero/scan", "")])));
    assert!(!has_scan_annotation(&anns(&[("beta.v1.sero/service", "")])));
}

#[test]
fn name_pattern_prefixes_deployment() {
    let c = config("foo", true, 0, 0, 0);
    assert_eq!(c.name_patern(), "sero-foo");
    let mut d = config("x", true, 0, 0, 0);
    d.deployment = "billing".to_string();
    assert_eq!(d.name_patern(), "sero-billing");
}

#[test]
fn derivation_keeps_defaults() {
    let c = to_config(anns(&[]), "foo".to_string(), defaults()).unwrap();
    assert_eq!(c, config("foo", true, 2000, 7000, 7000));
}

#[test]
fn derivation_overrides() {
    let a = anns(&[("beta.v1.sero/service", "svc1"), ("beta.v1.sero/inject", "false")]);
    let c = to_config(a, "foo".to_string(), defaults()).unwrap();
    assert_eq!(c, config("svc1", false, 2000, 7000, 7000));
}

#[test]
fn derivation_parse_failure_falls_back() {
    let a = anns(&[("beta.v1.sero/timeout-forward", "notanumber")]);
    let c = to_config(a, "foo".to_string(), defaults()).unwrap();
    assert_eq!(c.timeout_forward_ms, 2000);
    let a = anns(&[("beta.v1.sero/inject", "yes")]);
    assert!(to_config(a, "foo".to_string(), defaults()).unwrap().service_inject);
}

#[test]
fn derivation_timeouts_and_case() {
    let a = anns(&[
        ("BETA.V1.SERO/TIMEOUT-FORWARD", "+15"),
        ("beta.v1.sero/timeout-scaleup", "-3"),
        ("Beta.v1.Sero/Timeout-Scale-Down", "9000"),
        ("beta.v1.sero/timeout-scale-down-x", "1"),
    ]);
    let c = to_config(a, "foo".to_string(), defaults()).unwrap();
    assert_eq!(c, config("foo", true, 15, -3, 9000));
}

#[test]
fn derivation_empty_name_fails() {
    let r = to_config(anns(&[("beta.v1.sero/service", "s")]), String::new(), defaults());
    assert_eq!(r, Err(FormatError::MissingAttribute("deployment".to_string())));
    assert_eq!(r.unwrap_err().message(), "Missing attribute: deployment");
}

#[test]
fn observed_workload_without_annotations_derives_defaults() {
    let c = po_to_cfg(None, "foo".to_string(), defaults()).unwrap();
    assert_eq!(c, config("foo", true, 2000, 7000, 7000));
    let r = po_to_cfg(None, String::new(), defaults());
    assert_eq!(r, Err(FormatError::MissingAttribute("deployment".to_string())));
    let ok = po_to_cfg(Some(anns(&[])), "foo".to_string(), defaults()).unwrap();
    assert_eq!(ok.deployment, "foo");
}

#[test]
fn inject_values_parse_exactly() {
    let t = to_config(anns(&[("beta.v1.sero/inject", "true")]), "foo".to_string(), DefaultSeroConfig { inject: false, ..defaults() }).unwrap();
    assert!(t.service_inject);
    let u = to_config(anns(&[("beta.v1.sero/inject", "TRUE")]), "foo".to_string(), DefaultSeroConfig { inject: false, ..defaults() }).unwrap();
    assert!(!u.service_inject);
}

#[test]
fn apply_annotation_expects_lowercase_key() {
    let b = SeroConfigBuilder::new().deployment("d".to_string());
    let b = apply_annotation(b, &"BETA.V1.SERO/SERVICE".to_string(), &"s".to_string());
    assert_eq!(b.build().unwrap().service, "d");
    let b = SeroConfigBuilder::new().deployment("d".to_string());
    let b = apply_annotation(b, &"beta.v1.sero/service".to_string(), &"s".to_string());
    assert_eq!(b.build().unwrap().service, "s");
}

#[test]
fn builder_defaults() {
    let c = SeroConfig::builder().deployment("d".to_string()).build().unwrap();
    assert_eq!(c.image, "ghcr.io/fluktuid/sero.rs");
    assert_eq!(c.service, "d");
    assert!(!c.service_inject);
    assert_eq!(c.timeout_forward_ms, 0);
    let e = SeroConfigBuilder::new().build();
    assert_eq!(e, Err(FormatError::MissingAttribute("deployment".to_string())));
}

#[test]
fn builder_setters() {
    let c = SeroConfigBuilder::new()
        .deployment("d".to_string())
        .service("s".to_string())
        .image("i".to_string())
        .inject(true)
        .timeout_forward(1)
        .timeout_scale_up(2)
        .timeout_scale_down(3)
        .build()
        .unwrap();
    assert_eq!(
        c,
        SeroConfig {
            image: "i".to_string(),
            service: "s".to_string(),
            service_inject: true,
            deployment: "d".to_string(),
            timeout_forward_ms: 1,
            timeout_scale_up_ms: 2,
            timeout_scale_down_ms: 3,
        }
    );
}

#[test]
fn config_defaults() {
    let c = SeroConfig::default();
    assert_eq!(c.image, "ghcr.io/fluktuid/sero.rs");
    assert_eq!((c.timeout_forward_ms, c.timeout_scale_up_ms, c.timeout_scale_down_ms), (2000, 5000, 15000));
    let s = Settings::default();
    assert!(s.namespaces.is_empty());
    assert_eq!(s.default_config.image, "ghcr.io/fluktuid/sero.rs:latest");
    assert_eq!(s.default_config.port, 80);
    assert_eq!(s.default_config.timeout, Timeout { forward_ms: 2000, scale_up_ms: 7000, scale_down_ms: 7000 });
}

#[test]
fn rendered_instance() {
    let c = config("svc", false, -250, 7000, 0);
    let inst = render_instance(&c, "{\"a\":1}".to_string());
    assert_eq!(inst.name, "sero-foo");
    assert_eq!(inst.annotations, anns(&[("beta.v1.sero/config", "{\"a\":1}")]));
    assert_eq!(inst.labels, anns(&[("beta.v1.sero/deploy", "foo"), ("beta.v1.sero/service", "svc")]));
    assert_eq!(
        inst.env,
        anns(&[
            ("DEPLOYMENT", "foo"),
            ("SERVICE", "svc"),
            ("INJECT", "false"),
            ("TIMEOUT_FORWARD", "-250"),
            ("TIMEOUT_SCALE_UP", "7000"),
            ("TIMEOUT_SCALE_DOWN", "0"),
        ])
    );
    assert_eq!(inst.image, "img");
    assert_eq!((inst.container_port, inst.service_port), (8080, 80));
    assert_eq!(get_type(&inst.annotations), AppType::SeroSelf);
    assert_eq!(bool_text(true), "true");
}

#[test]
fn reconcile_decisions() {
    assert_eq!(reconcile_step(State::Added), ReconcileStep::Apply);
    assert_eq!(reconcile_step(State::Modified), ReconcileStep::Update);
    assert_eq!(reconcile_step(State::Deleted), ReconcileStep::Remove);
    assert_eq!(sync_op(true), SyncOp::Replace);
    assert_eq!(sync_op(false), SyncOp::Create);
    assert!(update_reapplies(&Some(anns(&[("beta.v1.sero/service", "s")]))));
    assert!(!update_reapplies(&Some(anns(&[("beta.v1.sero/config", "{}")]))));
    assert!(!update_reapplies(&None));
}

#[test]
fn apply_twice_picks_replace() {
    let c = config("foo", true, 2000, 7000, 7000);
    let first = render_instance(&c, "{}".to_string());
    let second = render_instance(&c, "{}".to_string());
    assert_eq!(first.name, second.name);
    assert_eq!(first.env, second.env);
    let mut store: Vec<String> = Vec::new();
    for inst in [first, second] {
        let exists = store.contains(&inst.name);
        match sync_op(exists) {
            SyncOp::Create => store.push(inst.name.clone()),
            SyncOp::Replace => {}
        }
    }
    assert_eq!(store, vec!["sero-foo".to_string()]);
}

#[test]
fn registry_add_then_remove() {
    let mut r: WatcherRegistry<u32> = WatcherRegistry::new();
    assert_eq!(r.add("ns1".to_string(), 1), None);
    assert!(r.contains(&"ns1".to_string()));
    assert_eq!(r.remove(&"ns1".to_string()), Some(1));
    assert!(!r.contains(&"ns1".to_string()));
    assert_eq!(r.remove(&"ns1".to_string()), None);
    assert_eq!(r.len(), 0);
}

#[test]
fn registry_duplicate_add_hands_back_old_task() {
    let mut r: WatcherRegistry<u32> = WatcherRegistry::new();
    assert_eq!(r.add("ns1".to_string(), 1), None);
    assert_eq!(r.add("ns2".to_string(), 2), None);
    assert_eq!(r.add("ns1".to_string(), 3), Some(1));
    assert_eq!(r.len(), 2);
    assert_eq!(r.remove(&"ns1".to_string()), Some(3));
    assert_eq!(r.remove(&"ns2".to_string()), Some(2));
}

#[test]
fn namespace_loop_decisions() {
    assert_eq!(namespace_action(State::Added), NamespaceAction::Start);
    assert_eq!(namespace_action(State::Deleted), NamespaceAction::Stop);
    assert_eq!(namespace_action(State::Modified), NamespaceAction::Ignore);
    let ev = static_namespace_events(vec!["a".to_string(), "b".to_string()]);
    assert_eq!(ev.len(), 2);
    assert_eq!(ev[0].object, "a");
    assert_eq!(ev[1].object, "b");
    assert!(ev.iter().all(|e| e.state == State::Added));
}

#[test]
fn billing_end_to_end() {
    let with = anns(&[("beta.v1.sero/service", "billing-svc")]);
    let ev = workload_change(WatchEvent::Applied, "billing".to_string(), &with).unwrap();
    assert_eq!(ev.state, State::Added);
    assert_eq!(reconcile_step(ev.state), ReconcileStep::Apply);
    let c = po_to_cfg(Some(with.clone()), ev.object, defaults()).unwrap();
    assert_eq!(c.service, "billing-svc");
    let inst = render_instance(&c, "{}".to_string());
    assert_eq!(inst.name, "sero-billing");

    let without = anns(&[("team", "payments")]);
    assert_eq!(get_type(&without), AppType::NotManaged);
    let ev = workload_change(WatchEvent::Applied, "billing".to_string(), &without).unwrap();
    assert_eq!(ev.state, State::Deleted);
    assert_eq!(reconcile_step(ev.state), ReconcileStep::Remove);
    let c = po_to_cfg(Some(without), ev.object, defaults()).unwrap();
    assert_eq!(c.name_patern(), "sero-billing");
}
