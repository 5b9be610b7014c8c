//! Properties that relate several operations of the library.
use vstd::prelude::*;

use crate::annotation::{
    app_type_of, some_key_holds, some_key_is, workload_route, AppType, WatchEvent, SERVICE_KEY,
};
use crate::derivation::{defaults_model, derived_from, override_of, overridden};
use crate::operator_config::DefaultSeroConfig;
use crate::reconcile::{apply_instance, ObjectKind, SeroInstance, Store};
use crate::text::{bool_of_text, i64_of_text, is_infix};
use crate::sero_config::{name_pattern_of, BuilderModel, SeroConfig};

verus! {

/// Every key of `a` is a key of `b`.
pub open spec fn keys_within(a: Seq<(String, String)>, b: Seq<(String, String)>) -> bool {
    forall|i: int|
        0 <= i < a.len() ==> exists|j: int| 0 <= j < b.len() && (#[trigger] b[j]).0@ == (#[trigger] a[i]).0@
}

/// Classification depends on the set of keys alone: two annotation lists with
/// the same keys, in any order and with any values, classify alike.
pub proof fn lemma_classification_ignores_order(a: Seq<(String, String)>, b: Seq<(String, String)>)
    requires
        keys_within(a, b),
        keys_within(b, a),
    ensures
        app_type_of(a) == app_type_of(b),
{
    lemma_keys_within_transfers(a, b);
    lemma_keys_within_transfers(b, a);
}

proof fn lemma_keys_within_transfers(a: Seq<(String, String)>, b: Seq<(String, String)>)
    requires
        keys_within(a, b),
    ensures
        forall|n: Seq<char>| some_key_holds(a, n) ==> some_key_holds(b, n),
        forall|k: Seq<char>| some_key_is(a, k) ==> some_key_is(b, k),
{
    assert forall|n: Seq<char>| some_key_holds(a, n) implies some_key_holds(b, n) by {
        let i = choose|i: int| 0 <= i < a.len() && is_infix(n, (#[trigger] a[i]).0@);
        let j = choose|j: int| 0 <= j < b.len() && (#[trigger] b[j]).0@ == a[i].0@;
        assert(is_infix(n, b[j].0@));
    }
    assert forall|k: Seq<char>| some_key_is(a, k) implies some_key_is(b, k) by {
        let i = choose|i: int| 0 <= i < a.len() && (#[trigger] a[i]).0@ == k;
        let j = choose|j: int| 0 <= j < b.len() && (#[trigger] b[j]).0@ == a[i].0@;
        assert(b[j].0@ == k);
    }
}

/// An object classified as generated never yields a change event, whether it
/// was applied or deleted.
pub proof fn lemma_generated_objects_are_silent(event: WatchEvent, anns: Seq<(String, String)>)
    requires
        app_type_of(anns) == AppType::SeroSelf,
    ensures
        workload_route(event, app_type_of(anns)) is None,
{
}

/// The generated name is `sero-` followed by the deployment name, so distinct
/// deployments get distinct names.
pub proof fn lemma_name_pattern(d: Seq<char>, e: Seq<char>)
    ensures
        name_pattern_of(d) == seq!['s', 'e', 'r', 'o', '-'] + d,
        name_pattern_of(d) == name_pattern_of(e) ==> d == e,
{
    reveal_strlit("sero-");
    assert(name_pattern_of(d) =~= seq!['s', 'e', 'r', 'o', '-'] + d);
    if name_pattern_of(d) == name_pattern_of(e) {
        assert(d =~= name_pattern_of(d).subrange(5, name_pattern_of(d).len() as int));
        assert(e =~= name_pattern_of(e).subrange(5, name_pattern_of(e).len() as int));
    }
}

/// Without annotations a derived configuration is the defaults, with the
/// workload name as deployment and as service.
pub proof fn lemma_derivation_keeps_defaults(c: SeroConfig, name: Seq<char>, d: DefaultSeroConfig)
    requires
        derived_from(c, Seq::empty(), name, d),
    ensures
        c.image@ == d.image@,
        c.service@ == name,
        c.deployment@ == name,
        c.service_inject == d.inject,
        c.timeout_forward_ms == d.timeout.forward_ms,
        c.timeout_scale_up_ms == d.timeout.scale_up_ms,
        c.timeout_scale_down_ms == d.timeout.scale_down_ms,
{
    assert(overridden(defaults_model(name, d), Seq::empty()) == defaults_model(name, d));
}

/// An annotation whose value parses neither as a boolean nor as an integer
/// changes nothing, unless it names the service.
pub proof fn lemma_unparsable_value_ignored(
    b: BuilderModel,
    key: Seq<char>,
    value: Seq<char>,
)
    requires
        bool_of_text(value) is None,
        i64_of_text(value) is None,
        key != SERVICE_KEY@,
    ensures
        override_of(b, key, value) == b,
{
}

/// Applying an instance always succeeds, leaves exactly one object of each
/// kind under its name, keeps every other object, and applying it a second
/// time changes nothing.
pub proof fn lemma_apply_idempotent(store: Store, inst: SeroInstance)
    ensures
        apply_instance(store, inst) is Some,
        ({
            let once = apply_instance(store, inst)->Some_0;
            &&& once == store.insert((ObjectKind::Deployment, inst.name@), inst).insert(
                (ObjectKind::ConfigMap, inst.name@),
                inst,
            ).insert((ObjectKind::Service, inst.name@), inst)
            &&& apply_instance(once, inst) == Some(once)
        }),
{
    let once = store.insert((ObjectKind::Deployment, inst.name@), inst).insert(
        (ObjectKind::ConfigMap, inst.name@),
        inst,
    ).insert((ObjectKind::Service, inst.name@), inst);
    assert(once.insert((ObjectKind::Deployment, inst.name@), inst) =~= once);
    assert(once.insert((ObjectKind::Deployment, inst.name@), inst).insert(
        (ObjectKind::ConfigMap, inst.name@),
        inst,
    ) =~= once);
    assert(once.insert((ObjectKind::Deployment, inst.name@), inst).insert(
        (ObjectKind::ConfigMap, inst.name@),
        inst,
    ).insert((ObjectKind::Service, inst.name@), inst) =~= once);
}

/// After a namespace is added and then removed it has no entry, and removing
/// it once more changes nothing.
pub proof fn lemma_add_then_remove<H>(registry: Map<Seq<char>, H>, name: Seq<char>, handle: H)
    ensures
        !registry.insert(name, handle).remove(name).contains_key(name),
        registry.insert(name, handle).remove(name).remove(name) == registry.insert(
            name,
            handle,
        ).remove(name),
        registry.insert(name, handle).remove(name) == registry.remove(name),
{
    assert(registry.insert(name, handle).remove(name).remove(name) =~= registry.insert(
        name,
        handle,
    ).remove(name));
    assert(registry.insert(name, handle).remove(name) =~= registry.remove(name));
}

} // verus!
