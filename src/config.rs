use vstd::prelude::*;
use crate::text::concat3;
use crate::types::{AurPackageSettings, GitPackageSettings};

verus! {

/// The packages that the change detector watches.
#[derive(Debug, Clone)]
pub struct ServerConfig {
    pub aur_packages: Vec<AurPackageSettings>,
    pub git_packages: Vec<GitPackageSettings>,
}

/// The packages that the change detector watches, read with the `AB`
/// environment prefix and no separator.
#[derive(Debug, Clone)]
pub struct Config {
    pub aur_packages: Vec<AurPackageSettings>,
    pub git_packages: Vec<GitPackageSettings>,
}

/// How the notifier reaches its mail server.
#[derive(Debug, Clone)]
pub struct SmtpSettings {
    pub host: String,
    pub user: String,
    pub pass: String,
    pub from: String,
    pub to: String,
}

/// Settings of the notification collaborator.
#[derive(Debug, Clone)]
pub struct NotifierConfig {
    pub smtp: SmtpSettings,
    pub maillogo: String,
}

/// Where build containers push the packages they built.
#[derive(Debug, Clone)]
pub struct GiteaSettings {
    pub repo: String,
    pub user: String,
    pub token: String,
}

/// Settings of a build orchestrator.
#[derive(Debug, Clone)]
pub struct WorkerConfig {
    pub builder: Option<String>,
    pub gitea: GiteaSettings,
}

/// The build image used when the configuration names none.
pub const DEFAULT_BUILDER_IMAGE: &'static str = "ghcr.io/neferin12/aur-builder-build-container";

/// The reference of the build image: the configured image, or
/// [`DEFAULT_BUILDER_IMAGE`], tagged with `version`.
pub open spec fn image_reference(builder: Option<String>, version: Seq<char>) -> Seq<char> {
    let base = match builder {
        Some(b) => b@,
        None => DEFAULT_BUILDER_IMAGE@,
    };
    base + ":"@ + version
}

/// The reference of the build image for a worker of release `version`.
pub fn get_image_name(builder: &Option<String>, version: &str) -> (r: String)
    ensures
        r@ == image_reference(*builder, version@),
{
    match builder {
        Some(b) => concat3(b.as_str(), ":", version),
        None => concat3(DEFAULT_BUILDER_IMAGE, ":", version),
    }
}

} // verus!
