//! The validated per-workload configuration and the builder that produces it.
use vstd::prelude::*;

verus! {

/// The proxy image a configuration carries when its builder was given none.
pub const FALLBACK_IMAGE: &'static str = "ghcr.io/fluktuid/sero.rs";

/// The prefix of every generated object's name.
pub const NAME_PREFIX: &'static str = "sero-";

#[derive(Debug, PartialEq, Eq)]
pub enum FormatError {
    MissingAttribute(String),
}

impl FormatError {
    /// The text of the error: `Missing attribute: <name>`.
    pub fn message(&self) -> (r: String)
        ensures
            match self {
                FormatError::MissingAttribute(a) => r@ == "Missing attribute: "@ + a@,
            },
    {
        match self {
            FormatError::MissingAttribute(a) => String::from_str("Missing attribute: ").concat(
                a.as_str(),
            ),
        }
    }
}

#[derive(Debug, PartialEq, Eq)]
pub struct SeroConfig {
    pub image: String,
    pub service: String,
    pub service_inject: bool,
    pub deployment: String,
    pub timeout_forward_ms: i64,
    pub timeout_scale_up_ms: i64,
    pub timeout_scale_down_ms: i64,
}

/// The name shared by the objects generated for a deployment.
pub open spec fn name_pattern_of(deployment: Seq<char>) -> Seq<char> {
    NAME_PREFIX@ + deployment
}

impl SeroConfig {
    /// An empty builder.
    pub fn builder() -> (r: SeroConfigBuilder)
        ensures
            r@ == SeroConfigBuilder::empty_model(),
    {
        SeroConfigBuilder::new()
    }

    /// The name of the generated objects: `sero-` followed by the deployment.
    pub fn name_patern(&self) -> (r: String)
        ensures
            r@ == name_pattern_of(self.deployment@),
    {
        String::from_str(NAME_PREFIX).concat(self.deployment.as_str())
    }
}

impl Default for SeroConfig {
    /// The fallback image, injection on, timeouts of 2000, 5000 and 15000
    /// milliseconds, and empty names.
    fn default() -> (r: SeroConfig)
        ensures
            r.image@ == FALLBACK_IMAGE@,
            r.service@.len() == 0,
            r.service_inject,
            r.deployment@.len() == 0,
            r.timeout_forward_ms == 2000,
            r.timeout_scale_up_ms == 5000,
            r.timeout_scale_down_ms == 15000,
    {
        SeroConfig {
            image: String::from_str(FALLBACK_IMAGE),
            service_inject: true,
            timeout_forward_ms: 2000,
            timeout_scale_up_ms: 5000,
            timeout_scale_down_ms: 15000,
            service: String::new(),
            deployment: String::new(),
        }
    }
}

/// What a builder holds so far.
pub struct BuilderModel {
    pub image: Option<Seq<char>>,
    pub service: Option<Seq<char>>,
    pub service_inject: bool,
    pub deployment: Option<Seq<char>>,
    pub timeout_forward_ms: i64,
    pub timeout_scale_up_ms: i64,
    pub timeout_scale_down_ms: i64,
}

pub struct SeroConfigBuilder {
    image: Option<String>,
    service: Option<String>,
    service_inject: bool,
    deployment: Option<String>,
    timeout_forward_ms: i64,
    timeout_scale_up_ms: i64,
    timeout_scale_down_ms: i64,
}

pub open spec fn text_of(s: Option<String>) -> Option<Seq<char>> {
    match s {
        Some(t) => Some(t@),
        None => None,
    }
}

impl View for SeroConfigBuilder {
    type V = BuilderModel;

    closed spec fn view(&self) -> BuilderModel {
        BuilderModel {
            image: text_of(self.image),
            service: text_of(self.service),
            service_inject: self.service_inject,
            deployment: text_of(self.deployment),
            timeout_forward_ms: self.timeout_forward_ms,
            timeout_scale_up_ms: self.timeout_scale_up_ms,
            timeout_scale_down_ms: self.timeout_scale_down_ms,
        }
    }
}

/// A builder can be built when it holds a non-empty deployment name.
pub open spec fn buildable(b: BuilderModel) -> bool {
    b.deployment matches Some(d) && d.len() > 0
}

/// `c` is what a buildable builder `b` produces: its fields as given, the
/// fallback image when none was given, and the deployment as service when no
/// service was given.
pub open spec fn built_from(c: SeroConfig, b: BuilderModel) -> bool {
    &&& Some(c.deployment@) == b.deployment
    &&& c.image@ == match b.image {
        Some(i) => i,
        None => FALLBACK_IMAGE@,
    }
    &&& c.service@ == match b.service {
        Some(s) => s,
        None => c.deployment@,
    }
    &&& c.service_inject == b.service_inject
    &&& c.timeout_forward_ms == b.timeout_forward_ms
    &&& c.timeout_scale_up_ms == b.timeout_scale_up_ms
    &&& c.timeout_scale_down_ms == b.timeout_scale_down_ms
}

impl SeroConfigBuilder {
    /// The model of a builder that was given nothing.
    pub open spec fn empty_model() -> BuilderModel {
        BuilderModel {
            image: None,
            service: None,
            service_inject: false,
            deployment: None,
            timeout_forward_ms: 0,
            timeout_scale_up_ms: 0,
            timeout_scale_down_ms: 0,
        }
    }

    pub fn new() -> (r: SeroConfigBuilder)
        ensures
            r@ == Self::empty_model(),
    {
        SeroConfigBuilder {
            image: None,
            service: None,
            service_inject: false,
            deployment: None,
            timeout_forward_ms: 0,
            timeout_scale_up_ms: 0,
            timeout_scale_down_ms: 0,
        }
    }

    pub fn service(self, service: String) -> (r: SeroConfigBuilder)
        ensures
            r@ == (BuilderModel { service: Some(service@), ..self@ }),
    {
        SeroConfigBuilder { service: Some(service), ..self }
    }

    pub fn inject(self, inject: bool) -> (r: SeroConfigBuilder)
        ensures
            r@ == (BuilderModel { service_inject: inject, ..self@ }),
    {
        SeroConfigBuilder { service_inject: inject, ..self }
    }

    pub fn image(self, image: String) -> (r: SeroConfigBuilder)
        ensures
            r@ == (BuilderModel { image: Some(image@), ..self@ }),
    {
        SeroConfigBuilder { image: Some(image), ..self }
    }

    pub fn deployment(self, deployment: String) -> (r: SeroConfigBuilder)
        ensures
            r@ == (BuilderModel { deployment: Some(deployment@), ..self@ }),
    {
        SeroConfigBuilder { deployment: Some(deployment), ..self }
    }

    pub fn timeout_forward(self, millis: i64) -> (r: SeroConfigBuilder)
        ensures
            r@ == (BuilderModel { timeout_forward_ms: millis, ..self@ }),
    {
        SeroConfigBuilder { timeout_forward_ms: millis, ..self }
    }

    pub fn timeout_scale_up(self, millis: i64) -> (r: SeroConfigBuilder)
        ensures
            r@ == (BuilderModel { timeout_scale_up_ms: millis, ..self@ }),
    {
        SeroConfigBuilder { timeout_scale_up_ms: millis, ..self }
    }

    pub fn timeout_scale_down(self, millis: i64) -> (r: SeroConfigBuilder)
        ensures
            r@ == (BuilderModel { timeout_scale_down_ms: millis, ..self@ }),
    {
        SeroConfigBuilder { timeout_scale_down_ms: millis, ..self }
    }

    /// Builds the configuration; fails with `MissingAttribute("deployment")`
    /// exactly when no non-empty deployment name was given.
    pub fn build(self) -> (r: Result<SeroConfig, FormatError>)
        ensures
            r is Ok <==> buildable(self@),
            r matches Ok(c) ==> built_from(c, self@),
            r matches Err(FormatError::MissingAttribute(a)) ==> a@ == "deployment"@,
    {
        let deploy = match self.deployment {
            Some(d) => d,
            None => {
                return Err(FormatError::MissingAttribute(String::from_str("deployment")));
            },
        };
        if deploy.as_str().is_empty() {
            return Err(FormatError::MissingAttribute(String::from_str("deployment")));
        }
        let service = match self.service {
            Some(s) => s,
            None => deploy.clone(),
        };
        let image = match self.image {
            Some(i) => i,
            None => String::from_str(FALLBACK_IMAGE),
        };
        Ok(
            SeroConfig {
                image,
                service,
                service_inject: self.service_inject,
                deployment: deploy,
                timeout_forward_ms: self.timeout_forward_ms,
                timeout_scale_up_ms: self.timeout_scale_up_ms,
                timeout_scale_down_ms: self.timeout_scale_down_ms,
            },
        )
    }
}

} // verus!
