use vstd::prelude::*;

verus! {

/// One `NAME=value` pair handed to a build container.
#[derive(Debug, Clone)]
pub struct EnvironmentVariable {
    pub name: String,
    pub value: String,
}

impl EnvironmentVariable {
    /// A field-by-field copy of the variable.
    pub fn duplicate(&self) -> (r: EnvironmentVariable)
        ensures
            r == *self,
    {
        EnvironmentVariable { name: self.name.clone(), value: self.value.clone() }
    }
}

/// A field-by-field copy of an optional string.
pub fn copy_opt_string(s: &Option<String>) -> (r: Option<String>)
    ensures
        r == *s,
{
    match s {
        Some(v) => Some(v.clone()),
        None => None,
    }
}

/// A field-by-field copy of a list of environment variables.
pub fn copy_environment(env: &Vec<EnvironmentVariable>) -> (r: Vec<EnvironmentVariable>)
    ensures
        r@ == env@,
{
    let mut r: Vec<EnvironmentVariable> = Vec::new();
    let mut i: usize = 0;
    while i < env.len()
        invariant
            i <= env.len(),
            r@ == env@.subrange(0, i as int),
        decreases env.len() - i,
    {
        r.push(env[i].duplicate());
        i = i + 1;
    }
    r
}

/// A field-by-field copy of an optional list of environment variables.
pub fn copy_opt_environment(env: &Option<Vec<EnvironmentVariable>>) -> (r: Option<
    Vec<EnvironmentVariable>,
>)
    ensures
        r is Some <==> env is Some,
        r is Some ==> r->0@ == env->0@,
{
    match env {
        Some(v) => Some(copy_environment(v)),
        None => None,
    }
}


/// A package taken from the Arch User Repository, as configured.
#[derive(Debug, Clone)]
pub struct AurPackageSettings {
    pub name: String,
    pub env: Option<Vec<EnvironmentVariable>>,
    pub options: Option<String>,
}

/// A package whose definition lives in a git repository, as configured.
#[derive(Debug, Clone)]
pub struct GitPackageSettings {
    pub source: String,
    pub subfolder: Option<String>,
    pub env: Option<Vec<EnvironmentVariable>>,
    pub options: Option<String>,
}

/// What a fetch of the upstream state of one package returned.
#[derive(Debug, Clone)]
pub struct PackageSearchResult {
    pub name: String,
    pub version: String,
    pub maintainer: String,
    pub last_modified: i64,
    pub source: Option<String>,
    pub subfolder: Option<String>,
    pub options: Option<String>,
    pub environment: Option<Vec<EnvironmentVariable>>,
}

/// The environment of a task, seen as a sequence.
pub open spec fn env_view(env: Option<Vec<EnvironmentVariable>>) -> Option<Seq<EnvironmentVariable>> {
    match env {
        Some(v) => Some(v@),
        None => None,
    }
}

/// The value of a build task.
pub struct BuildTaskView {
    pub id: i32,
    pub name: String,
    pub version: String,
    pub source: Option<String>,
    pub subfolder: Option<String>,
    pub options: Option<String>,
    pub env: Option<Seq<EnvironmentVariable>>,
}

/// A request to build one package: the message of the build-requests queue.
#[derive(Debug, Clone)]
pub struct BuildTaskTransmissionFormat {
    pub id: i32,
    pub name: String,
    pub version: String,
    pub source: Option<String>,
    pub subfolder: Option<String>,
    pub options: Option<String>,
    pub env: Option<Vec<EnvironmentVariable>>,
}

impl View for BuildTaskTransmissionFormat {
    type V = BuildTaskView;

    open spec fn view(&self) -> BuildTaskView {
        BuildTaskView {
            id: self.id,
            name: self.name,
            version: self.version,
            source: self.source,
            subfolder: self.subfolder,
            options: self.options,
            env: env_view(self.env),
        }
    }
}

impl BuildTaskTransmissionFormat {
    /// A field-by-field copy of the task.
    pub fn duplicate(&self) -> (r: BuildTaskTransmissionFormat)
        ensures
            r@ == self@,
    {
        BuildTaskTransmissionFormat {
            id: self.id,
            name: self.name.clone(),
            version: self.version.clone(),
            source: copy_opt_string(&self.source),
            subfolder: copy_opt_string(&self.subfolder),
            options: copy_opt_string(&self.options),
            env: copy_opt_environment(&self.env),
        }
    }
}

/// A point in time, as seconds since the Unix epoch and the nanoseconds
/// within that second (UTC, no time zone).
#[derive(Debug, Clone, Copy, PartialEq, Eq)]
pub struct Timestamp {
    pub secs: i64,
    pub nanos: u32,
}

/// When a build started and when it ended.
#[derive(Debug, Clone, Copy, PartialEq, Eq)]
pub struct Timestamps {
    pub start: Timestamp,
    pub end: Timestamp,
}

/// The outcome of one build: the message of the build-results queue.
///
/// `status_code` is the exit code of the build container, or
/// [`STATUS_UNAVAILABLE`] when none was reported.
#[derive(Debug, Clone)]
pub struct BuildResultTransmissionFormat {
    pub task: BuildTaskTransmissionFormat,
    pub status_code: i64,
    pub log_lines: Vec<String>,
    pub success: bool,
    pub timestamps: Timestamps,
}

/// The status code of a result whose container reported no exit code.
pub const STATUS_UNAVAILABLE: i64 = -5;

/// Package metadata read from the AUR, with the id it is stored under.
#[derive(Debug)]
pub struct AurRequestResult {
    pub id: i64,
    pub name: String,
    pub version: String,
    pub maintainer: String,
    pub last_modified: i64,
}

/// Package metadata read from the AUR, with the AUR's own id.
#[derive(Debug)]
pub struct AurResultStruct {
    pub id: u64,
    pub name: String,
    pub version: String,
    pub maintainer: String,
    pub last_modified: u64,
}

} // verus!
