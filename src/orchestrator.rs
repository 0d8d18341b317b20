use vstd::prelude::*;
use crate::config::GiteaSettings;
use crate::text::{concat2, concat3, decimal, decimal_string};
use crate::types::{
    BuildResultTransmissionFormat, BuildTaskTransmissionFormat, BuildTaskView,
    EnvironmentVariable, Timestamp, Timestamps, STATUS_UNAVAILABLE,
};

verus! {

/// The user that builds run as inside the container.
pub const BUILD_USER: &'static str = "builder";

/// The CPU scheduling period of a build container, in microseconds.
pub const CPU_PERIOD: i64 = 100000;

/// The CPU time a build container may use per period: one logical CPU.
pub const CPU_QUOTA: i64 = 100000;

/// Where an AUR package's sources are cloned from when the task names none.
pub open spec fn aur_source_url(name: Seq<char>) -> Seq<char> {
    "https://aur.archlinux.org/"@ + name + ".git"@
}

/// The repository a build task is built from: its own source, or the AUR
/// repository of its name.
pub open spec fn source_url_of(task: BuildTaskView) -> Seq<char> {
    match task.source {
        Some(s) => s@,
        None => aur_source_url(task.name@),
    }
}

/// The repository a build task is built from.
pub fn source_url_for(task: &BuildTaskTransmissionFormat) -> (r: String)
    ensures
        r@ == source_url_of(task@),
{
    match &task.source {
        Some(s) => s.clone(),
        None => concat3("https://aur.archlinux.org/", task.name.as_str(), ".git"),
    }
}

/// The name of the container that builds `task_name`, made unique by
/// `suffix`.
pub open spec fn container_name_of(task_name: Seq<char>, suffix: u32) -> Seq<char> {
    "build-"@ + task_name + "-"@ + decimal(suffix as nat)
}

/// The name of the container that builds `task_name`, made unique by
/// `suffix`.
pub fn container_name(task_name: &str, suffix: u32) -> (r: String)
    ensures
        r@ == container_name_of(task_name@, suffix),
{
    let mut s = concat3("build-", task_name, "-");
    let d = decimal_string(suffix as u64);
    s.append(d.as_str());
    s
}

/// Relies on `rand::random`: a random number from the thread's generator.
#[verifier::external_body]
pub(crate) fn random_u32() -> (r: u32) {
    rand::random::<u32>()
}

/// A random number in decimal, to tell apart the names of concurrent
/// consumers and containers.
pub fn get_rand_string() -> (r: String)
    ensures
        exists|n: u32| r@ == decimal(n as nat),
{
    let n = random_u32();
    decimal_string(n as u64)
}

/// The value of an optional setting, empty when it is not set.
pub open spec fn or_empty(s: Option<String>) -> Seq<char> {
    match s {
        Some(v) => v@,
        None => Seq::empty(),
    }
}

/// `NAME=value` for one variable.
pub open spec fn env_entry(name: Seq<char>, value: Seq<char>) -> Seq<char> {
    name + "="@ + value
}

/// The variables of a task, one `NAME=value` entry each, in order.
pub open spec fn task_env_entries(env: Option<Seq<EnvironmentVariable>>) -> Seq<Seq<char>> {
    match env {
        None => Seq::empty(),
        Some(e) => Seq::new(e.len(), |i: int| env_entry(e[i].name@, e[i].value@)),
    }
}

/// The environment of a build container: the source to build, its
/// subfolder, where to push what was built, the task's options, then every
/// variable of the task.
pub open spec fn container_env_of(task: BuildTaskView, source_url: Seq<char>, gitea: GiteaSettings) -> Seq<
    Seq<char>,
> {
    seq![
        "AB_SOURCE="@ + source_url,
        "AB_SUBFOLDER="@ + or_empty(task.subfolder),
        "AB_GITEA_REPO="@ + gitea.repo@,
        "AB_GITEA_USER="@ + gitea.user@,
        "AB_GITEA_TOKEN="@ + gitea.token@,
        "AB_OPTIONS="@ + or_empty(task.options),
    ] + task_env_entries(task.env)
}

fn opt_or_empty(s: &Option<String>) -> (r: &str)
    ensures
        r@ == or_empty(*s),
{
    match s {
        Some(v) => v.as_str(),
        None => {
            proof {
                reveal_strlit("");
            }
            ""
        },
    }
}

/// The environment of the container that builds `task` from `source_url`.
pub fn container_env(task: &BuildTaskTransmissionFormat, source_url: &String, gitea: &GiteaSettings) -> (r:
    Vec<String>)
    ensures
        r@.map_values(|s: String| s@) == container_env_of(task@, source_url@, *gitea),
{
    let mut env: Vec<String> = Vec::new();
    env.push(concat2("AB_SOURCE=", source_url.as_str()));
    env.push(concat2("AB_SUBFOLDER=", opt_or_empty(&task.subfolder)));
    env.push(concat2("AB_GITEA_REPO=", gitea.repo.as_str()));
    env.push(concat2("AB_GITEA_USER=", gitea.user.as_str()));
    env.push(concat2("AB_GITEA_TOKEN=", gitea.token.as_str()));
    env.push(concat2("AB_OPTIONS=", opt_or_empty(&task.options)));
    let ghost fixed = env@.map_values(|s: String| s@);
    proof {
        assert(fixed =~= container_env_of(task@, source_url@, *gitea).subrange(0, 6));
    }
    match &task.env {
        None => {},
        Some(vars) => {
            let mut i: usize = 0;
            while i < vars.len()
                invariant
                    i <= vars.len(),
                    env@.len() == 6 + i,
                    env@.map_values(|s: String| s@).subrange(0, 6) == fixed,
                    forall|j: int|
                        0 <= j < i ==> #[trigger] env@[6 + j]@ == env_entry(
                            vars@[j].name@,
                            vars@[j].value@,
                        ),
                decreases vars.len() - i,
            {
                let ghost prev = env@;
                env.push(concat3(vars[i].name.as_str(), "=", vars[i].value.as_str()));
                proof {
                    assert(env@.map_values(|s: String| s@).subrange(0, 6) =~= prev.map_values(
                        |s: String| s@,
                    ).subrange(0, 6));
                }
                i = i + 1;
            }
        },
    }
    proof {
        assert(env@.map_values(|s: String| s@) =~= container_env_of(task@, source_url@, *gitea)) by {
            let l = env@.map_values(|s: String| s@);
            let e = container_env_of(task@, source_url@, *gitea);
            assert(l.len() == e.len());
            assert forall|k: int| 0 <= k < l.len() implies l[k] == e[k] by {
                if k < 6 {
                    assert(l.subrange(0, 6)[k] == l[k]);
                } else {
                    assert(env@[6 + (k - 6)]@ == l[k]);
                }
            }
        }
    }
    env
}

/// How a build container is created.
#[derive(Debug, Clone)]
pub struct ContainerSpec {
    pub name: String,
    pub image: String,
    pub user: String,
    pub env: Vec<String>,
    pub cpu_period: i64,
    pub cpu_quota: i64,
    pub auto_remove: bool,
}

/// The container that builds `task` with `image`: uniquely named, running
/// as the build user, bound to one logical CPU, kept after it exits so its
/// log can be read.
pub fn container_spec(
    task: &BuildTaskTransmissionFormat,
    image: &String,
    gitea: &GiteaSettings,
    suffix: u32,
) -> (r: ContainerSpec)
    ensures
        r.name@ == container_name_of(task.name@, suffix),
        r.image == *image,
        r.user@ == BUILD_USER@,
        r.env@.map_values(|s: String| s@) == container_env_of(task@, source_url_of(task@), *gitea),
        r.cpu_period == CPU_PERIOD,
        r.cpu_quota == CPU_QUOTA,
        !r.auto_remove,
{
    let source_url = source_url_for(task);
    ContainerSpec {
        name: container_name(task.name.as_str(), suffix),
        image: image.clone(),
        user: String::from_str(BUILD_USER),
        env: container_env(task, &source_url, gitea),
        cpu_period: CPU_PERIOD,
        cpu_quota: CPU_QUOTA,
        auto_remove: false,
    }
}

/// The text of a byte chunk of container output, invalid UTF-8 replaced.
pub uninterp spec fn utf8_lossy(b: Seq<u8>) -> Seq<char>;

/// Relies on `String::from_utf8_lossy`: the text depends on the bytes alone,
/// and no bytes give no text.
#[verifier::external_body]
fn decode_lossy(b: &Vec<u8>) -> (r: String)
    ensures
        r@ == utf8_lossy(b@),
        b@.len() == 0 ==> r@.len() == 0,
{
    String::from_utf8_lossy(b.as_slice()).into_owned()
}

/// Which output of the container a chunk of its log came from.
#[derive(Debug, Clone, Copy, PartialEq, Eq)]
pub enum LogStream {
    StdOut,
    StdErr,
    /// Input echoed back, or the console of a terminal: not part of the log.
    Other,
}

/// A log line: the name of its stream, a colon and a space, then the text.
pub fn prefixed_line(prefix: &str, text: &str) -> (r: String)
    ensures
        r@ == prefix@ + ": "@ + text@,
{
    concat3(prefix, ": ", text)
}

/// A chunk of container output as a log line, prefixed by its stream.
pub fn log_message_to_string(prefix: &str, message: &Vec<u8>) -> (r: String)
    ensures
        r@ == prefix@ + ": "@ + utf8_lossy(message@),
{
    let text = decode_lossy(message);
    prefixed_line(prefix, text.as_str())
}

/// The log line for a chunk of container output: standard output and
/// standard error are kept, prefixed with `stdout` or `stderr`; other
/// chunks are dropped.
pub fn log_line(stream: LogStream, message: &Vec<u8>) -> (r: Option<String>)
    ensures
        stream == LogStream::StdOut ==> (r matches Some(l) && l@ == "stdout: "@ + utf8_lossy(
            message@,
        )),
        stream == LogStream::StdErr ==> (r matches Some(l) && l@ == "stderr: "@ + utf8_lossy(
            message@,
        )),
        stream == LogStream::Other ==> r is None,
{
    proof {
        reveal_strlit("stdout");
        reveal_strlit("stderr");
        reveal_strlit(": ");
        reveal_strlit("stdout: ");
        reveal_strlit("stderr: ");
    }
    match stream {
        LogStream::StdOut => Some(log_message_to_string("stdout", message)),
        LogStream::StdErr => Some(log_message_to_string("stderr", message)),
        LogStream::Other => None,
    }
}

/// What the wait on a build container ended with.
#[derive(Debug, Clone, Copy, PartialEq, Eq)]
pub enum WaitOutcome {
    /// The container exited normally with this status.
    Exited { status_code: i64 },
    /// The wait reported the container's failure, with its exit code.
    ExitError { code: i64 },
    /// The runtime failed and reported no exit code.
    RuntimeError,
    /// The wait ended without reporting anything.
    StreamEnded,
}

/// Why a task could not be turned into a build result.
#[derive(Debug, Clone, Copy, PartialEq, Eq)]
pub enum BuildFailure {
    CreateFailed,
    StartFailed,
    /// The runtime failed while waiting and gave no exit code.
    WaitFailed,
    /// The wait ended without an event.
    WaitEnded,
    RemoveFailed,
}

/// Whether a wait outcome can be classified into a build result.
pub open spec fn classifiable(o: WaitOutcome) -> bool {
    o is Exited || o is ExitError
}

/// The status code that a classifiable outcome gives.
pub open spec fn status_of(o: WaitOutcome) -> i64 {
    match o {
        WaitOutcome::Exited { status_code } => status_code,
        WaitOutcome::ExitError { code } => code,
        _ => STATUS_UNAVAILABLE,
    }
}

/// Whether a classifiable outcome counts as success: a normal exit does, a
/// failure reported by the wait does not.
pub open spec fn success_of(o: WaitOutcome) -> bool {
    !(o is ExitError)
}

/// The failure that an outcome that cannot be classified gives.
pub open spec fn failure_of(o: WaitOutcome) -> BuildFailure {
    if o is RuntimeError {
        BuildFailure::WaitFailed
    } else {
        BuildFailure::WaitEnded
    }
}

/// Classifies the end of a build: a normal exit gives a successful result
/// with the exit status, an exit reported as an error gives a failed result
/// with its code, and an outcome without exit code is a failure of the task,
/// not a result.
pub fn classify_wait(
    outcome: WaitOutcome,
    task: BuildTaskTransmissionFormat,
    log_lines: Vec<String>,
    timestamps: Timestamps,
) -> (r: Result<BuildResultTransmissionFormat, BuildFailure>)
    ensures
        classifiable(outcome) <==> r is Ok,
        r matches Ok(res) ==> {
            &&& res.status_code == status_of(outcome)
            &&& res.success == success_of(outcome)
            &&& res.task@ == task@
            &&& res.log_lines@ == log_lines@
            &&& res.timestamps == timestamps
        },
        r matches Err(f) ==> f == failure_of(outcome),
{
    let mut result = BuildResultTransmissionFormat {
        task,
        status_code: STATUS_UNAVAILABLE,
        log_lines,
        success: true,
        timestamps,
    };
    match outcome {
        WaitOutcome::Exited { status_code } => {
            result.status_code = status_code;
            Ok(result)
        },
        WaitOutcome::ExitError { code } => {
            result.status_code = code;
            result.success = false;
            Ok(result)
        },
        WaitOutcome::RuntimeError => Err(BuildFailure::WaitFailed),
        WaitOutcome::StreamEnded => Err(BuildFailure::WaitEnded),
    }
}

} // verus!
