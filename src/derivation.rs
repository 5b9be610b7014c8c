//! Derivation of a workload's configuration from its annotations and the
//! process defaults.
use vstd::prelude::*;

use crate::annotation::{
    Annotations, INJECT_KEY, SERVICE_KEY, TIMEOUT_FORWARD_KEY, TIMEOUT_SCALE_DOWN_KEY,
    TIMEOUT_SCALE_UP_KEY,
};
use crate::operator_config::DefaultSeroConfig;
use crate::sero_config::{built_from, BuilderModel, FormatError, SeroConfig, SeroConfigBuilder};
use crate::text::{bool_of_text, i64_of_text, lower_of, lowercase, parse_bool, parse_i64};

verus! {

/// The builder a derivation starts from: the workload name and the defaults.
pub open spec fn defaults_model(name: Seq<char>, d: DefaultSeroConfig) -> BuilderModel {
    BuilderModel {
        image: Some(d.image@),
        service: None,
        service_inject: d.inject,
        deployment: Some(name),
        timeout_forward_ms: d.timeout.forward_ms,
        timeout_scale_up_ms: d.timeout.scale_up_ms,
        timeout_scale_down_ms: d.timeout.scale_down_ms,
    }
}

/// The effect of one annotation, whose key is already lower-cased: a
/// recognized key overrides its field when the value parses, and anything
/// else leaves the builder as it is.
pub open spec fn override_of(b: BuilderModel, key: Seq<char>, value: Seq<char>) -> BuilderModel {
    if key == SERVICE_KEY@ {
        BuilderModel { service: Some(value), ..b }
    } else if key == INJECT_KEY@ {
        match bool_of_text(value) {
            Some(v) => BuilderModel { service_inject: v, ..b },
            None => b,
        }
    } else if key == TIMEOUT_FORWARD_KEY@ {
        match i64_of_text(value) {
            Some(v) => BuilderModel { timeout_forward_ms: v, ..b },
            None => b,
        }
    } else if key == TIMEOUT_SCALE_UP_KEY@ {
        match i64_of_text(value) {
            Some(v) => BuilderModel { timeout_scale_up_ms: v, ..b },
            None => b,
        }
    } else if key == TIMEOUT_SCALE_DOWN_KEY@ {
        match i64_of_text(value) {
            Some(v) => BuilderModel { timeout_scale_down_ms: v, ..b },
            None => b,
        }
    } else {
        b
    }
}

/// The builder after the annotations, in order, with keys compared
/// case-insensitively.
pub open spec fn overridden(b: BuilderModel, anns: Seq<(String, String)>) -> BuilderModel
    decreases anns.len(),
{
    if anns.len() == 0 {
        b
    } else {
        override_of(overridden(b, anns.drop_last()), lower_of(anns.last().0@), anns.last().1@)
    }
}

/// The configuration derived for workload `name`, when it has a name.
pub open spec fn derived_from(
    c: SeroConfig,
    anns: Seq<(String, String)>,
    name: Seq<char>,
    d: DefaultSeroConfig,
) -> bool {
    built_from(c, overridden(defaults_model(name, d), anns))
}

proof fn lemma_overridden_keeps_deployment(b: BuilderModel, anns: Seq<(String, String)>)
    ensures
        overridden(b, anns).deployment == b.deployment,
    decreases anns.len(),
{
    if anns.len() > 0 {
        lemma_overridden_keeps_deployment(b, anns.drop_last());
    }
}

/// Applies one annotation whose key is already lower-cased.
pub fn apply_annotation(builder: SeroConfigBuilder, key: &String, value: &String) -> (r:
    SeroConfigBuilder)
    ensures
        r@ == override_of(builder@, key@, value@),
{
    if *key == String::from_str(SERVICE_KEY) {
        builder.service(value.clone())
    } else if *key == String::from_str(INJECT_KEY) {
        match parse_bool(value.as_str()) {
            Some(v) => builder.inject(v),
            None => builder,
        }
    } else if *key == String::from_str(TIMEOUT_FORWARD_KEY) {
        match parse_i64(value.as_str()) {
            Some(v) => builder.timeout_forward(v),
            None => builder,
        }
    } else if *key == String::from_str(TIMEOUT_SCALE_UP_KEY) {
        match parse_i64(value.as_str()) {
            Some(v) => builder.timeout_scale_up(v),
            None => builder,
        }
    } else if *key == String::from_str(TIMEOUT_SCALE_DOWN_KEY) {
        match parse_i64(value.as_str()) {
            Some(v) => builder.timeout_scale_down(v),
            None => builder,
        }
    } else {
        builder
    }
}

/// Derives the configuration of workload `name` from its annotations and the
/// defaults. Values that do not parse leave the default in place; the only
/// failure is an empty name.
pub fn to_config(annotations: Annotations, name: String, default: DefaultSeroConfig) -> (r: Result<
    SeroConfig,
    FormatError,
>)
    ensures
        r is Ok <==> name@.len() > 0,
        r matches Ok(c) ==> derived_from(c, annotations@, name@, default),
        r matches Err(FormatError::MissingAttribute(a)) ==> a@ == "deployment"@,
{
    let ghost base = defaults_model(name@, default);
    let mut builder = SeroConfigBuilder::new().deployment(name).image(default.image).inject(
        default.inject,
    ).timeout_forward(default.timeout.forward_ms).timeout_scale_up(
        default.timeout.scale_up_ms,
    ).timeout_scale_down(default.timeout.scale_down_ms);
    assert(annotations@.take(0) =~= Seq::<(String, String)>::empty());
    let mut i: usize = 0;
    while i < annotations.len()
        invariant
            i <= annotations@.len(),
            builder@ == overridden(base, annotations@.take(i as int)),
        decreases annotations@.len() - i,
    {
        let key = lowercase(annotations[i].0.as_str());
        builder = apply_annotation(builder, &key, &annotations[i].1);
        assert(annotations@.take(i + 1).drop_last() =~= annotations@.take(i as int));
        i += 1;
    }
    assert(annotations@.take(i as int) =~= annotations@);
    proof {
        lemma_overridden_keeps_deployment(base, annotations@);
    }
    builder.build()
}

/// The annotations of an observed object, where an absent map counts as
/// an empty one.
pub open spec fn annotations_or_empty(annotations: Option<Annotations>) -> Seq<(String, String)> {
    match annotations {
        Some(a) => a@,
        None => Seq::empty(),
    }
}

/// Derives the configuration of an observed workload. An object without an
/// annotation map derives as one with no annotations; the only failure is an
/// empty name.
pub fn po_to_cfg(annotations: Option<Annotations>, name: String, default: DefaultSeroConfig) -> (r:
    Result<SeroConfig, FormatError>)
    ensures
        r is Ok <==> name@.len() > 0,
        r matches Ok(c) ==> derived_from(c, annotations_or_empty(annotations), name@, default),
        r matches Err(FormatError::MissingAttribute(a)) ==> a@ == "deployment"@,
{
    match annotations {
        Some(a) => to_config(a, name, default),
        None => {
            let empty: Annotations = Vec::new();
            assert(empty@ =~= Seq::<(String, String)>::empty());
            to_config(empty, name, default)
        },
    }
}

} // verus!
