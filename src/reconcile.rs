//! The generated objects of a workload and the reconciliation decisions:
//! which step a change event asks for, whether a modified workload is still
//! managed, and whether an object is created or replaced.
use vstd::prelude::*;

use crate::annotation::{
    app_type_of, get_type, lemma_config_key_in_namespace, Annotations, AppType, State, CONFIG_KEY,
    DEPLOY_LABEL, SERVICE_KEY,
};
use crate::sero_config::{name_pattern_of, SeroConfig};
use crate::text::{bool_text, i64_text, text_of_bool, text_of_i64};

verus! {

/// The port the proxy container listens on.
pub const PROXY_PORT: i32 = 8080;

/// The port the generated service exposes.
pub const SERVICE_PORT: i32 = 80;

/// The name of the proxy container.
pub const CONTAINER_NAME: &'static str = "sero";

/// The name of the proxy's port.
pub const PORT_NAME: &'static str = "tcp";

/// The protocol of the proxy's port.
pub const PORT_PROTOCOL: &'static str = "TCP";

/// The keys of the proxy's environment data.
pub const ENV_DEPLOYMENT: &'static str = "DEPLOYMENT";

pub const ENV_SERVICE: &'static str = "SERVICE";

pub const ENV_INJECT: &'static str = "INJECT";

pub const ENV_TIMEOUT_FORWARD: &'static str = "TIMEOUT_FORWARD";

pub const ENV_TIMEOUT_SCALE_UP: &'static str = "TIMEOUT_SCALE_UP";

pub const ENV_TIMEOUT_SCALE_DOWN: &'static str = "TIMEOUT_SCALE_DOWN";

/// What the three generated objects of a workload hold: the deployment
/// running the proxy, its environment configuration, and the service.
pub struct SeroInstance {
    /// The name shared by the three objects.
    pub name: String,
    /// The annotations of each object: the serialized configuration.
    pub annotations: Annotations,
    /// The labels of the objects and of the proxy's pods, and the selector of
    /// the deployment and of the service.
    pub labels: Annotations,
    /// The environment data of the configuration object.
    pub env: Annotations,
    /// The proxy image.
    pub image: String,
    /// The port the proxy container listens on.
    pub container_port: i32,
    /// The port the service exposes, mapped to the container's port.
    pub service_port: i32,
}

/// The pairs of `s`, as texts.
pub open spec fn pairs_view(s: Seq<(String, String)>) -> Seq<(Seq<char>, Seq<char>)> {
    s.map_values(|p: (String, String)| (p.0@, p.1@))
}

/// The labels of the objects generated for `c`.
pub open spec fn labels_of(c: SeroConfig) -> Seq<(Seq<char>, Seq<char>)> {
    seq![(DEPLOY_LABEL@, c.deployment@), (SERVICE_KEY@, c.service@)]
}

/// The environment data generated for `c`.
pub open spec fn env_of(c: SeroConfig) -> Seq<(Seq<char>, Seq<char>)> {
    seq![
        (ENV_DEPLOYMENT@, c.deployment@),
        (ENV_SERVICE@, c.service@),
        (ENV_INJECT@, text_of_bool(c.service_inject)),
        (ENV_TIMEOUT_FORWARD@, text_of_i64(c.timeout_forward_ms)),
        (ENV_TIMEOUT_SCALE_UP@, text_of_i64(c.timeout_scale_up_ms)),
        (ENV_TIMEOUT_SCALE_DOWN@, text_of_i64(c.timeout_scale_down_ms)),
    ]
}

/// `inst` is what is generated for `c`, whose serialized form is `serialized`.
pub open spec fn instance_of(inst: SeroInstance, c: SeroConfig, serialized: Seq<char>) -> bool {
    &&& inst.name@ == name_pattern_of(c.deployment@)
    &&& pairs_view(inst.annotations@) == seq![(CONFIG_KEY@, serialized)]
    &&& pairs_view(inst.labels@) == labels_of(c)
    &&& pairs_view(inst.env@) == env_of(c)
    &&& inst.image@ == c.image@
    &&& inst.container_port == PROXY_PORT
    &&& inst.service_port == SERVICE_PORT
}

fn pair(k: &str, v: String) -> (r: (String, String))
    ensures
        r.0@ == k@,
        r.1@ == v@,
{
    (String::from_str(k), v)
}

/// The generated objects for `config`, whose serialized form is `serialized`.
/// Their annotations classify them as generated, so that watching them never
/// starts a new reconciliation.
pub fn render_instance(config: &SeroConfig, serialized: String) -> (r: SeroInstance)
    ensures
        instance_of(r, *config, serialized@),
        app_type_of(r.annotations@) == AppType::SeroSelf,
{
    let ghost s = serialized@;
    let name = config.name_patern();
    let mut annotations: Annotations = Vec::new();
    annotations.push(pair(CONFIG_KEY, serialized));
    let mut labels: Annotations = Vec::new();
    labels.push(pair(DEPLOY_LABEL, config.deployment.clone()));
    labels.push(pair(SERVICE_KEY, config.service.clone()));
    let mut env: Annotations = Vec::new();
    env.push(pair(ENV_DEPLOYMENT, config.deployment.clone()));
    env.push(pair(ENV_SERVICE, config.service.clone()));
    env.push(pair(ENV_INJECT, bool_text(config.service_inject)));
    env.push(pair(ENV_TIMEOUT_FORWARD, i64_text(config.timeout_forward_ms)));
    env.push(pair(ENV_TIMEOUT_SCALE_UP, i64_text(config.timeout_scale_up_ms)));
    env.push(pair(ENV_TIMEOUT_SCALE_DOWN, i64_text(config.timeout_scale_down_ms)));
    let r = SeroInstance {
        name,
        annotations,
        labels,
        env,
        image: config.image.clone(),
        container_port: PROXY_PORT,
        service_port: SERVICE_PORT,
    };
    assert(pairs_view(r.annotations@) =~= seq![(CONFIG_KEY@, s)]);
    assert(pairs_view(r.labels@) =~= labels_of(*config));
    assert(pairs_view(r.env@) =~= env_of(*config));
    proof {
        lemma_config_key_in_namespace();
        assert(r.annotations@[0].0@ == CONFIG_KEY@);
    }
    r
}

/// What the reconciler does for a change event.
#[derive(Clone, Copy, Debug, PartialEq, Eq, Structural)]
pub enum ReconcileStep {
    /// Create or replace the generated objects.
    Apply,
    /// Check the live object, then apply or remove.
    Update,
    /// Delete the generated objects.
    Remove,
}

pub open spec fn step_of(state: State) -> ReconcileStep {
    match state {
        State::Added => ReconcileStep::Apply,
        State::Modified => ReconcileStep::Update,
        State::Deleted => ReconcileStep::Remove,
    }
}

/// `Added` applies, `Modified` updates, `Deleted` removes.
pub fn reconcile_step(state: State) -> (r: ReconcileStep)
    ensures
        r == step_of(state),
{
    match state {
        State::Added => ReconcileStep::Apply,
        State::Modified => ReconcileStep::Update,
        State::Deleted => ReconcileStep::Remove,
    }
}

/// Whether a modified workload is re-applied: its live object has annotations
/// that classify as managed. Otherwise its generated objects are removed.
pub fn update_reapplies(live_annotations: &Option<Annotations>) -> (r: bool)
    ensures
        r == (live_annotations matches Some(a) && app_type_of(a@) == AppType::Managed),
{
    match live_annotations {
        Some(a) => get_type(a) == AppType::Managed,
        None => false,
    }
}

/// How one object is written to the cluster.
#[derive(Clone, Copy, Debug, PartialEq, Eq, Structural)]
pub enum SyncOp {
    Create,
    Replace,
}

pub open spec fn sync_choice(exists: bool) -> SyncOp {
    if exists {
        SyncOp::Replace
    } else {
        SyncOp::Create
    }
}

/// An object that exists is replaced; one that does not is created.
pub fn sync_op(exists: bool) -> (r: SyncOp)
    ensures
        r == sync_choice(exists),
{
    if exists {
        SyncOp::Replace
    } else {
        SyncOp::Create
    }
}

/// The kinds of generated objects.
#[derive(Clone, Copy, Debug, PartialEq, Eq, Structural)]
pub enum ObjectKind {
    Deployment,
    ConfigMap,
    Service,
}

/// The objects of a namespace, by kind and name.
pub type Store = Map<(ObjectKind, Seq<char>), SeroInstance>;

/// The store after `op` writes `obj` under `key`: a create fails where the key
/// exists, a replace fails where it does not.
pub open spec fn after_op(store: Store, key: (ObjectKind, Seq<char>), obj: SeroInstance, op: SyncOp) -> Option<Store> {
    match op {
        SyncOp::Create => if store.contains_key(key) {
            None
        } else {
            Some(store.insert(key, obj))
        },
        SyncOp::Replace => if store.contains_key(key) {
            Some(store.insert(key, obj))
        } else {
            None
        },
    }
}

/// The store after one object is synced with the operation `sync_op` picks.
pub open spec fn upsert(store: Store, kind: ObjectKind, obj: SeroInstance) -> Option<Store> {
    let key = (kind, obj.name@);
    after_op(store, key, obj, sync_choice(store.contains_key(key)))
}

/// The store after the three objects of an instance are synced; `None` when
/// a write fails.
pub open spec fn apply_instance(store: Store, inst: SeroInstance) -> Option<Store> {
    match upsert(store, ObjectKind::Deployment, inst) {
        Some(s1) => match upsert(s1, ObjectKind::ConfigMap, inst) {
            Some(s2) => upsert(s2, ObjectKind::Service, inst),
            None => None,
        },
        None => None,
    }
}

} // verus!
