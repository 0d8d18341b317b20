use vstd::prelude::*;
use crate::store::{after_report, has_id, package_with_id, store_wf, PackageState, PackageStoreView};
use crate::text::{concat2, join_all, joined, views};
use crate::types::{BuildResultTransmissionFormat, Timestamp};

verus! {

/// The queue that build tasks are published to.
pub const BUILD_QUEUE: &'static str = "pkg_build";

/// The queue that build results are published to.
pub const RESULTS_QUEUE: &'static str = "build_results";

/// The queue that recorded build results are forwarded to.
pub const NOTIFICATION_QUEUE: &'static str = "notifications";

/// A persisted build result, as written: append-only, never updated.
#[derive(Debug, Clone)]
pub struct BuildResultRecord {
    pub package_id: i64,
    pub exit_code: i32,
    pub build_log: Option<String>,
    pub success: bool,
    pub started_at: Option<Timestamp>,
    pub finished_at: Option<Timestamp>,
    pub version: Option<String>,
}

/// The value of a [`BuildResultRecord`].
pub struct BuildResultRecordView {
    pub package_id: i64,
    pub exit_code: i32,
    pub build_log: Option<Seq<char>>,
    pub success: bool,
    pub started_at: Option<Timestamp>,
    pub finished_at: Option<Timestamp>,
    pub version: Option<Seq<char>>,
}

impl View for BuildResultRecord {
    type V = BuildResultRecordView;

    open spec fn view(&self) -> BuildResultRecordView {
        BuildResultRecordView {
            package_id: self.package_id,
            exit_code: self.exit_code,
            build_log: match self.build_log {
                Some(l) => Some(l@),
                None => None,
            },
            success: self.success,
            started_at: self.started_at,
            finished_at: self.finished_at,
            version: match self.version {
                Some(v) => Some(v@),
                None => None,
            },
        }
    }
}

/// The record that a build result of a stored package is persisted as: the
/// log lines joined without separator, the exit code narrowed to the
/// column's 32 bits, and the version that was built.
pub open spec fn record_view_of(p: PackageState, data: BuildResultTransmissionFormat) -> BuildResultRecordView {
    BuildResultRecordView {
        package_id: p.id as i64,
        exit_code: data.status_code as i32,
        build_log: Some(joined(views(data.log_lines@))),
        success: data.success,
        started_at: Some(data.timestamps.start),
        finished_at: Some(data.timestamps.end),
        version: Some(data.task.version@),
    }
}

/// The record that a build result of a stored package is persisted as.
pub fn build_result_record(p: &PackageState, data: &BuildResultTransmissionFormat) -> (r:
    BuildResultRecord)
    ensures
        r@ == record_view_of(*p, *data),
{
    #[verifier::truncate]
    let exit_code = data.status_code as i32;
    BuildResultRecord {
        package_id: p.id as i64,
        exit_code,
        build_log: Some(join_all(&data.log_lines)),
        success: data.success,
        started_at: Some(data.timestamps.start),
        finished_at: Some(data.timestamps.end),
        version: Some(data.task.version.clone()),
    }
}

/// Why a build result could not be recorded.
#[derive(Debug, Clone, Copy, PartialEq, Eq)]
pub enum ReportError {
    /// The result names a package id that is not stored.
    UnknownPackage { id: i32 },
}

/// Decides how a build result is recorded, given the stored package that its
/// task names (looked up by the task's id). An unknown package is a hard
/// error and nothing is to be written; otherwise one record is appended, and
/// the message is then forwarded unchanged.
pub fn plan_report(package: &Option<PackageState>, data: &BuildResultTransmissionFormat) -> (r:
    Result<BuildResultRecord, ReportError>)
    ensures
        *package is None ==> r == Err::<BuildResultRecord, ReportError>(
            ReportError::UnknownPackage { id: data.task.id },
        ),
        *package matches Some(p) ==> r matches Ok(rec) && rec@ == record_view_of(p, *data),
{
    match package {
        None => Err(ReportError::UnknownPackage { id: data.task.id }),
        Some(p) => Ok(build_result_record(p, data)),
    }
}

/// The subject of the notification about a build result.
pub open spec fn subject_of(data: BuildResultTransmissionFormat) -> Seq<char> {
    if data.success {
        "Updated "@ + data.task.name@
    } else {
        "Failed to update "@ + data.task.name@
    }
}

/// The subject of the notification about a build result: `Updated <name>`
/// for a success, `Failed to update <name>` otherwise.
pub fn notification_subject(data: &BuildResultTransmissionFormat) -> (r: String)
    ensures
        r@ == subject_of(*data),
{
    if data.success {
        concat2("Updated ", data.task.name.as_str())
    } else {
        concat2("Failed to update ", data.task.name.as_str())
    }
}

/// Replaying a build result, as a broker redelivery does, leaves the
/// packages as they were and appends the same record a second time: records
/// may duplicate, packages are never touched.
pub proof fn lemma_replay_appends_duplicate(v: PackageStoreView, data: BuildResultTransmissionFormat)
    requires
        store_wf(v),
        has_id(v, data.task.id),
    ensures
        ({
            let rec = record_view_of(package_with_id(v, data.task.id)->0, data);
            &&& after_report(v, data) matches Ok(once)
            &&& after_report(once, data) matches Ok(twice)
            &&& twice.packages == v.packages
            &&& twice.next_package_id == v.next_package_id
            &&& twice.results == v.results.push(rec).push(rec)
        }),
{
}

} // verus!
