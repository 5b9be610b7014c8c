//! Annotation keys, the classification of workloads by their annotations, and
//! the decision of which watch events become change events.
use vstd::prelude::*;

use crate::text::{is_infix, text_contains};

verus! {

/// The reserved annotation namespace of the controller.
pub const ANNOTATION_PREFIX: &'static str = "beta.v1.sero/";

/// Marks an object generated by the controller; holds its serialized configuration.
pub const CONFIG_KEY: &'static str = "beta.v1.sero/config";

/// Overrides the service name of a workload.
pub const SERVICE_KEY: &'static str = "beta.v1.sero/service";

/// Overrides the inject flag of a workload.
pub const INJECT_KEY: &'static str = "beta.v1.sero/inject";

/// Overrides the forward timeout of a workload, in milliseconds.
pub const TIMEOUT_FORWARD_KEY: &'static str = "beta.v1.sero/timeout-forward";

/// Overrides the scale-up timeout of a workload, in milliseconds.
pub const TIMEOUT_SCALE_UP_KEY: &'static str = "beta.v1.sero/timeout-scaleup";

/// Overrides the scale-down timeout of a workload, in milliseconds.
pub const TIMEOUT_SCALE_DOWN_KEY: &'static str = "beta.v1.sero/timeout-scale-down";

/// Label key that carries the workload's deployment name.
pub const DEPLOY_LABEL: &'static str = "beta.v1.sero/deploy";

/// A namespace with a key holding this text is picked up by the initial listing.
pub const SCAN_KEY: &'static str = "beta.v1.sero/scan";

/// A namespace with a key holding this text follows the live namespace watch.
pub const SERO_MARKER: &'static str = "sero/";

/// The annotations of an object, as key/value pairs.
pub type Annotations = Vec<(String, String)>;

#[derive(Clone, Copy, Debug, PartialEq, Eq, Structural)]
pub enum State {
    Added,
    Modified,
    Deleted,
}

#[derive(Clone, Copy, Debug, PartialEq, Eq, Structural)]
pub enum AppType {
    Managed,
    SeroSelf,
    NotManaged,
}

/// A change observed by a watcher, with the state it reports.
#[derive(Clone)]
pub struct ChangeObject<T> {
    pub object: T,
    pub state: State,
}

/// The kind of event a live watch reports.
#[derive(Clone, Copy, Debug, PartialEq, Eq, Structural)]
pub enum WatchEvent {
    Applied,
    Deleted,
}

/// Some key of `anns` holds `needle`.
pub open spec fn some_key_holds(anns: Seq<(String, String)>, needle: Seq<char>) -> bool {
    exists|i: int| 0 <= i < anns.len() && is_infix(needle, (#[trigger] anns[i]).0@)
}

/// Some key of `anns` is exactly `key`.
pub open spec fn some_key_is(anns: Seq<(String, String)>, key: Seq<char>) -> bool {
    exists|i: int| 0 <= i < anns.len() && (#[trigger] anns[i]).0@ == key
}

/// The classification of an object by its annotations.
pub open spec fn app_type_of(anns: Seq<(String, String)>) -> AppType {
    let opted_in = some_key_holds(anns, ANNOTATION_PREFIX@);
    let generated = some_key_is(anns, CONFIG_KEY@);
    if opted_in && generated {
        AppType::SeroSelf
    } else if opted_in {
        AppType::Managed
    } else {
        AppType::NotManaged
    }
}

/// The state published for a workload event, if any.
pub open spec fn workload_route(event: WatchEvent, t: AppType) -> Option<State> {
    match t {
        AppType::SeroSelf => None,
        AppType::Managed => match event {
            WatchEvent::Applied => Some(State::Added),
            WatchEvent::Deleted => Some(State::Deleted),
        },
        AppType::NotManaged => Some(State::Deleted),
    }
}

/// The state published for a namespace event, if any.
pub open spec fn namespace_route(event: WatchEvent, marked: bool) -> Option<State> {
    match event {
        WatchEvent::Applied => if marked {
            Some(State::Added)
        } else {
            Some(State::Deleted)
        },
        WatchEvent::Deleted => if marked {
            Some(State::Deleted)
        } else {
            None
        },
    }
}

/// The generated-config key lies in the reserved annotation namespace.
pub proof fn lemma_config_key_in_namespace()
    ensures
        is_infix(ANNOTATION_PREFIX@, CONFIG_KEY@),
{
    reveal_strlit("beta.v1.sero/");
    reveal_strlit("beta.v1.sero/config");
    let n: int = ANNOTATION_PREFIX@.len() as int;
    assert(CONFIG_KEY@.subrange(0, 0 + n) =~= ANNOTATION_PREFIX@);
}

/// Whether some key holds `needle`.
fn any_key_holds(annotations: &Annotations, needle: &str) -> (r: bool)
    ensures
        r == some_key_holds(annotations@, needle@),
{
    let mut found = false;
    let mut i: usize = 0;
    while i < annotations.len()
        invariant
            i <= annotations@.len(),
            found == (exists|j: int|
                0 <= j < i && is_infix(needle@, (#[trigger] annotations@[j]).0@)),
        decreases annotations@.len() - i,
    {
        if text_contains(annotations[i].0.as_str(), needle) {
            found = true;
        }
        i += 1;
    }
    found
}

/// Whether some key is exactly `key`.
fn any_key_is(annotations: &Annotations, key: &str) -> (r: bool)
    ensures
        r == some_key_is(annotations@, key@),
{
    let wanted = String::from_str(key);
    let mut found = false;
    let mut i: usize = 0;
    while i < annotations.len()
        invariant
            i <= annotations@.len(),
            wanted@ == key@,
            found == (exists|j: int| 0 <= j < i && (#[trigger] annotations@[j]).0@ == key@),
        decreases annotations@.len() - i,
    {
        if annotations[i].0 == wanted {
            found = true;
        }
        i += 1;
    }
    found
}

/// Classifies an object by its annotations: `SeroSelf` when a key lies in the
/// reserved namespace and the generated-config key is present, `Managed` when
/// only the first holds, `NotManaged` otherwise.
pub fn get_type(annotations: &Annotations) -> (r: AppType)
    ensures
        r == app_type_of(annotations@),
{
    let has_annotation = any_key_holds(annotations, ANNOTATION_PREFIX);
    let has_config = any_key_is(annotations, CONFIG_KEY);
    if has_annotation && has_config {
        AppType::SeroSelf
    } else if has_annotation {
        AppType::Managed
    } else {
        AppType::NotManaged
    }
}

/// Whether a namespace follows the live watch: some key holds `sero/`.
pub fn has_sero_annotation(annotations: &Annotations) -> (r: bool)
    ensures
        r == some_key_holds(annotations@, SERO_MARKER@),
{
    any_key_holds(annotations, SERO_MARKER)
}

/// Whether a namespace is picked up by the initial listing: some key holds
/// `beta.v1.sero/scan`.
pub fn has_scan_annotation(annotations: &Annotations) -> (r: bool)
    ensures
        r == some_key_holds(annotations@, SCAN_KEY@),
{
    any_key_holds(annotations, SCAN_KEY)
}

/// The change event that a workload watch publishes for an observed event:
/// none for generated objects, `Added` for an applied managed workload, and
/// `Deleted` otherwise.
pub fn workload_change<T>(event: WatchEvent, object: T, annotations: &Annotations) -> (r: Option<
    ChangeObject<T>,
>)
    ensures
        r is Some <==> workload_route(event, app_type_of(annotations@)) is Some,
        r matches Some(c) ==> c.object == object && Some(c.state) == workload_route(
            event,
            app_type_of(annotations@),
        ),
        app_type_of(annotations@) == AppType::SeroSelf ==> r is None,
{
    match get_type(annotations) {
        AppType::SeroSelf => None,
        AppType::Managed => match event {
            WatchEvent::Applied => Some(ChangeObject { object, state: State::Added }),
            WatchEvent::Deleted => Some(ChangeObject { object, state: State::Deleted }),
        },
        AppType::NotManaged => Some(ChangeObject { object, state: State::Deleted }),
    }
}

/// The change event that the namespace watch publishes for an observed event:
/// an applied namespace is added when marked and removed otherwise; a deleted
/// namespace is removed when it was marked.
pub fn namespace_change(event: WatchEvent, name: String, annotations: &Annotations) -> (r: Option<
    ChangeObject<String>,
>)
    ensures
        r is Some <==> namespace_route(event, some_key_holds(annotations@, SERO_MARKER@)) is Some,
        r matches Some(c) ==> c.object == name && Some(c.state) == namespace_route(
            event,
            some_key_holds(annotations@, SERO_MARKER@),
        ),
{
    let marked = has_sero_annotation(annotations);
    match event {
        WatchEvent::Applied => if marked {
            Some(ChangeObject { object: name, state: State::Added })
        } else {
            Some(ChangeObject { object: name, state: State::Deleted })
        },
        WatchEvent::Deleted => if marked {
            Some(ChangeObject { object: name, state: State::Deleted })
        } else {
            None
        },
    }
}

} // verus!
