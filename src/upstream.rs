use vstd::prelude::*;
use crate::errors::MissingFieldError;
use crate::types::{
    copy_opt_environment, copy_opt_string, env_view, AurPackageSettings, GitPackageSettings,
    PackageSearchResult,
};

verus! {

/// The body of an answer of the AUR information endpoint.
#[derive(Debug)]
pub struct AurResponse {
    pub results: Vec<AurPackageInfo>,
}

/// One package of an answer of the AUR information endpoint.
#[derive(Debug)]
pub struct AurPackageInfo {
    pub name: String,
    pub version: String,
    pub maintainer: Option<String>,
    pub last_modified: i64,
}

/// The maintainer as stored: the one named, or the empty string.
pub open spec fn maintainer_or_empty(m: Option<String>) -> Seq<char> {
    match m {
        Some(s) => s@,
        None => Seq::empty(),
    }
}

/// The upstream state of an AUR package: taken from the first package of the
/// answer, with the configured options and environment. An answer without
/// packages is missing its `results`.
pub fn aur_search_result(resp: &AurResponse, package: &AurPackageSettings) -> (r: Result<
    PackageSearchResult,
    MissingFieldError,
>)
    ensures
        r is Err <==> resp.results@.len() == 0,
        r matches Err(e) ==> e@ == "results"@,
        r matches Ok(p) ==> {
            let info = resp.results@[0];
            &&& p.name == info.name
            &&& p.version == info.version
            &&& p.maintainer@ == maintainer_or_empty(info.maintainer)
            &&& p.last_modified == info.last_modified
            &&& p.source is None
            &&& p.subfolder is None
            &&& p.options == package.options
            &&& env_view(p.environment) == env_view(package.env)
        },
{
    if resp.results.len() == 0 {
        return Err(MissingFieldError::new(String::from_str("results")));
    }
    let info = &resp.results[0];
    let maintainer = match &info.maintainer {
        Some(m) => m.clone(),
        None => String::new(),
    };
    Ok(
        PackageSearchResult {
            name: info.name.clone(),
            version: info.version.clone(),
            maintainer,
            last_modified: info.last_modified,
            source: None,
            subfolder: None,
            options: copy_opt_string(&package.options),
            environment: copy_opt_environment(&package.env),
        },
    )
}

/// The maintainer recorded for packages taken from git.
pub const GIT_MAINTAINER: &'static str = "unknown";

/// The upstream state of a package taken from git: the package base and
/// version that its `.SRCINFO` declares, the time of the head commit in
/// seconds since the Unix epoch, and the configured source, subfolder,
/// options and environment.
pub fn git_search_result(
    pkgbase: String,
    pkgver: String,
    head_commit_time: i64,
    pkg: &GitPackageSettings,
) -> (r: PackageSearchResult)
    ensures
        r.name == pkgbase,
        r.version == pkgver,
        r.maintainer@ == GIT_MAINTAINER@,
        r.last_modified == head_commit_time,
        r.source == Some(pkg.source),
        r.subfolder == pkg.subfolder,
        r.options == pkg.options,
        env_view(r.environment) == env_view(pkg.env),
{
    PackageSearchResult {
        name: pkgbase,
        version: pkgver,
        maintainer: String::from_str(GIT_MAINTAINER),
        last_modified: head_commit_time,
        source: Some(pkg.source.clone()),
        subfolder: copy_opt_string(&pkg.subfolder),
        options: copy_opt_string(&pkg.options),
        environment: copy_opt_environment(&pkg.env),
    }
}

} // verus!
