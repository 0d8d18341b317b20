use vstd::prelude::*;
use crate::reporter::{plan_report, record_view_of, BuildResultRecord, BuildResultRecordView, ReportError};
use crate::types::{copy_opt_string, BuildResultTransmissionFormat, PackageSearchResult};

verus! {

/// The persisted state of one tracked package. `id` is assigned once, when
/// the package is first stored, and joins the package to its build results.
#[derive(Debug, Clone)]
pub struct PackageState {
    pub id: i32,
    pub name: String,
    pub version: String,
    pub maintainer: String,
    pub last_modified: i64,
    pub source: Option<String>,
    pub subfolder: Option<String>,
}

impl PackageState {
    /// A field-by-field copy of the state.
    pub fn duplicate(&self) -> (r: PackageState)
        ensures
            r == *self,
    {
        PackageState {
            id: self.id,
            name: self.name.clone(),
            version: self.version.clone(),
            maintainer: self.maintainer.clone(),
            last_modified: self.last_modified,
            source: copy_opt_string(&self.source),
            subfolder: copy_opt_string(&self.subfolder),
        }
    }
}

/// The columns of a package that a fetch writes: all but the id.
#[derive(Debug, Clone)]
pub struct PackageRow {
    pub name: String,
    pub version: String,
    pub maintainer: String,
    pub last_modified: i64,
    pub source: Option<String>,
    pub subfolder: Option<String>,
}

/// The row that fetched data is stored as.
pub open spec fn row_of(data: PackageSearchResult) -> PackageRow {
    PackageRow {
        name: data.name,
        version: data.version,
        maintainer: data.maintainer,
        last_modified: data.last_modified,
        source: data.source,
        subfolder: data.subfolder,
    }
}

/// The package with this id and these columns.
pub open spec fn with_row(id: i32, row: PackageRow) -> PackageState {
    PackageState {
        id,
        name: row.name,
        version: row.version,
        maintainer: row.maintainer,
        last_modified: row.last_modified,
        source: row.source,
        subfolder: row.subfolder,
    }
}

/// The row that fetched data is stored as.
pub fn package_row(data: &PackageSearchResult) -> (r: PackageRow)
    ensures
        r == row_of(*data),
{
    PackageRow {
        name: data.name.clone(),
        version: data.version.clone(),
        maintainer: data.maintainer.clone(),
        last_modified: data.last_modified,
        source: copy_opt_string(&data.source),
        subfolder: copy_opt_string(&data.subfolder),
    }
}

/// A write to the package table.
#[derive(Debug, Clone)]
pub enum MetadataWrite {
    /// Store a package that was not known; the store assigns its id.
    Insert(PackageRow),
    /// Overwrite the columns of the known package `id`; the id stays.
    Update { id: i32, row: PackageRow },
}

/// The write that fetched data calls for, given the stored state of the
/// package of that name: an insert for a package never seen, an update when
/// the upstream timestamp is strictly newer, and nothing otherwise. A
/// package counts as changed exactly when a write is called for.
pub open spec fn planned_write(existing: Option<PackageState>, data: PackageSearchResult) -> Option<
    MetadataWrite,
> {
    match existing {
        None => Some(MetadataWrite::Insert(row_of(data))),
        Some(m) => if m.last_modified < data.last_modified {
            Some(MetadataWrite::Update { id: m.id, row: row_of(data) })
        } else {
            None
        },
    }
}

/// Decides how fetched data updates the stored state of its package.
pub fn plan_metadata_update(existing: &Option<PackageState>, data: &PackageSearchResult) -> (r:
    Option<MetadataWrite>)
    ensures
        r == planned_write(*existing, *data),
{
    match existing {
        None => Some(MetadataWrite::Insert(package_row(data))),
        Some(m) => {
            if m.last_modified < data.last_modified {
                Some(MetadataWrite::Update { id: m.id, row: package_row(data) })
            } else {
                None
            }
        },
    }
}

/// The state of a package with its upstream timestamp set to `0`, so that
/// the next pass of the change detector treats it as changed.
pub open spec fn reset_state(p: PackageState) -> PackageState {
    PackageState { last_modified: 0, ..p }
}

/// A failure of the in-memory store.
#[derive(Debug, Clone, Copy, PartialEq, Eq)]
pub enum StoreError {
    /// Every package id has been handed out.
    IdsExhausted,
}

/// The contents of a [`PackageStore`].
pub struct PackageStoreView {
    pub packages: Seq<PackageState>,
    pub results: Seq<BuildResultRecordView>,
    pub next_package_id: int,
}

/// Package names are unique, ids are unique, positive and below the next id
/// to hand out.
pub open spec fn store_wf(v: PackageStoreView) -> bool {
    &&& 1 <= v.next_package_id <= i32::MAX
    &&& forall|i: int|
        0 <= i < v.packages.len() ==> 1 <= #[trigger] v.packages[i].id < v.next_package_id
    &&& forall|i: int, j: int|
        0 <= i < j < v.packages.len() ==> #[trigger] v.packages[i].name@
            != #[trigger] v.packages[j].name@
    &&& forall|i: int, j: int|
        0 <= i < j < v.packages.len() ==> #[trigger] v.packages[i].id != #[trigger] v.packages[j].id
}

/// Whether a package of this name is stored.
pub open spec fn has_name(v: PackageStoreView, name: Seq<char>) -> bool {
    exists|i: int| 0 <= i < v.packages.len() && #[trigger] v.packages[i].name@ == name
}

/// The position of the package of this name.
pub open spec fn index_named(v: PackageStoreView, name: Seq<char>) -> int {
    choose|i: int| 0 <= i < v.packages.len() && #[trigger] v.packages[i].name@ == name
}

/// The stored state of the package of this name, if any.
pub open spec fn package_named(v: PackageStoreView, name: Seq<char>) -> Option<PackageState> {
    if has_name(v, name) {
        Some(v.packages[index_named(v, name)])
    } else {
        None
    }
}

/// Whether a package with this id is stored.
pub open spec fn has_id(v: PackageStoreView, id: i32) -> bool {
    exists|i: int| 0 <= i < v.packages.len() && #[trigger] v.packages[i].id == id
}

/// The stored state of the package with this id, if any.
pub open spec fn package_with_id(v: PackageStoreView, id: i32) -> Option<PackageState> {
    if has_id(v, id) {
        Some(
            v.packages[choose|i: int| 0 <= i < v.packages.len() && #[trigger] v.packages[i].id == id],
        )
    } else {
        None
    }
}

/// The store after a write. An insert that finds the ids spent changes
/// nothing.
pub open spec fn after_write(v: PackageStoreView, w: MetadataWrite) -> PackageStoreView {
    match w {
        MetadataWrite::Insert(row) => if v.next_package_id < i32::MAX {
            PackageStoreView {
                packages: v.packages.push(with_row(v.next_package_id as i32, row)),
                next_package_id: v.next_package_id + 1,
                ..v
            }
        } else {
            v
        },
        MetadataWrite::Update { id, row } => PackageStoreView {
            packages: v.packages.update(index_named(v, row.name@), with_row(id, row)),
            ..v
        },
    }
}

/// The store after an update of metadata with fetched data.
pub open spec fn after_update(v: PackageStoreView, data: PackageSearchResult) -> PackageStoreView {
    match planned_write(package_named(v, data.name@), data) {
        None => v,
        Some(w) => after_write(v, w),
    }
}

/// Whether an update with fetched data fails: it needs a new id and none is
/// left.
pub open spec fn update_fails(v: PackageStoreView, data: PackageSearchResult) -> bool {
    !has_name(v, data.name@) && v.next_package_id == i32::MAX
}

/// The store after a build result is recorded, or the error when its package
/// is unknown. Packages are never changed; records are only appended.
pub open spec fn after_report(v: PackageStoreView, data: BuildResultTransmissionFormat) -> Result<
    PackageStoreView,
    ReportError,
> {
    match package_with_id(v, data.task.id) {
        None => Err(ReportError::UnknownPackage { id: data.task.id }),
        Some(p) => Ok(PackageStoreView { results: v.results.push(record_view_of(p, data)), ..v }),
    }
}

/// An in-memory package state store: the package table and the append-only
/// table of build results.
#[derive(Debug)]
pub struct PackageStore {
    packages: Vec<PackageState>,
    results: Vec<BuildResultRecord>,
    next_package_id: i32,
}

impl View for PackageStore {
    type V = PackageStoreView;

    closed spec fn view(&self) -> PackageStoreView {
        PackageStoreView {
            packages: self.packages@,
            results: self.results@.map_values(|r: BuildResultRecord| r@),
            next_package_id: self.next_package_id as int,
        }
    }
}

impl PackageStore {
    pub open spec fn wf(&self) -> bool {
        store_wf(self@)
    }

    /// An empty store.
    pub fn new() -> (r: PackageStore)
        ensures
            r.wf(),
            r@.packages.len() == 0,
            r@.results.len() == 0,
    {
        let r = PackageStore { packages: Vec::new(), results: Vec::new(), next_package_id: 1 };
        proof {
            assert(r@.results =~= Seq::<BuildResultRecordView>::empty());
        }
        r
    }

    /// The stored packages, in the order they were first stored.
    pub fn get_packages(&self) -> (r: Vec<PackageState>)
        ensures
            r@ == self@.packages,
    {
        let mut r: Vec<PackageState> = Vec::new();
        let mut i: usize = 0;
        while i < self.packages.len()
            invariant
                i <= self.packages.len(),
                r@ == self.packages@.subrange(0, i as int),
            decreases self.packages.len() - i,
        {
            r.push(self.packages[i].duplicate());
            i = i + 1;
        }
        proof {
            assert(self.packages@.subrange(0, self.packages@.len() as int) =~= self.packages@);
        }
        r
    }

    /// The recorded build results, in the order they were recorded.
    pub fn results(&self) -> (r: &Vec<BuildResultRecord>)
        ensures
            r@.map_values(|x: BuildResultRecord| x@) == self@.results,
    {
        &self.results
    }

    fn index_of_name(&self, name: &String) -> (r: Option<usize>)
        requires
            self.wf(),
        ensures
            r is None <==> !has_name(self@, name@),
            r matches Some(i) ==> i == index_named(self@, name@) && i < self@.packages.len(),
    {
        let mut i: usize = 0;
        while i < self.packages.len()
            invariant
                self.wf(),
                i <= self.packages.len(),
                forall|j: int| 0 <= j < i ==> #[trigger] self.packages@[j].name@ != name@,
            decreases self.packages.len() - i,
        {
            if self.packages[i].name == *name {
                proof {
                    let k = index_named(self@, name@);
                    assert(self@.packages[i as int].name@ == name@);
                    assert(0 <= k < self@.packages.len() && self@.packages[k].name@ == name@);
                    if k != i as int {
                        if k < i as int {
                            assert(self@.packages[k].name@ != self@.packages[i as int].name@);
                        } else {
                            assert(self@.packages[i as int].name@ != self@.packages[k].name@);
                        }
                    }
                }
                return Some(i);
            }
            i = i + 1;
        }
        proof {
            assert forall|j: int| 0 <= j < self@.packages.len() implies #[trigger] self@.packages[j].name@
                != name@ by {
                assert(self.packages@[j].name@ != name@);
            }
        }
        None
    }

    fn index_of_id(&self, id: i32) -> (r: Option<usize>)
        requires
            self.wf(),
        ensures
            r is None <==> !has_id(self@, id),
            r matches Some(i) ==> i < self@.packages.len() && package_with_id(self@, id) == Some(
                self@.packages[i as int],
            ),
    {
        let mut i: usize = 0;
        while i < self.packages.len()
            invariant
                self.wf(),
                i <= self.packages.len(),
                forall|j: int| 0 <= j < i ==> #[trigger] self.packages@[j].id != id,
            decreases self.packages.len() - i,
        {
            if self.packages[i].id == id {
                proof {
                    assert(self@.packages[i as int].id == id);
                    let k = choose|k: int|
                        0 <= k < self@.packages.len() && #[trigger] self@.packages[k].id == id;
                    if k != i as int {
                        if k < i as int {
                            assert(self@.packages[k].id != self@.packages[i as int].id);
                        } else {
                            assert(self@.packages[i as int].id != self@.packages[k].id);
                        }
                    }
                }
                return Some(i);
            }
            i = i + 1;
        }
        proof {
            assert forall|j: int| 0 <= j < self@.packages.len() implies #[trigger] self@.packages[j].id
                != id by {
                assert(self.packages@[j].id != id);
            }
        }
        None
    }

    /// The stored state of the package of this name, if any.
    pub fn get_package_by_name(&self, name: &String) -> (r: Option<PackageState>)
        requires
            self.wf(),
        ensures
            r == package_named(self@, name@),
    {
        match self.index_of_name(name) {
            Some(i) => Some(self.packages[i].duplicate()),
            None => None,
        }
    }

    /// The stored state of the package with this id, if any.
    pub fn get_package(&self, id: i32) -> (r: Option<PackageState>)
        requires
            self.wf(),
        ensures
            r == package_with_id(self@, id),
    {
        match self.index_of_id(id) {
            Some(i) => Some(self.packages[i].duplicate()),
            None => None,
        }
    }

    /// Applies fetched data to the package of its name, as
    /// [`planned_write`] says: insert an unknown package under a fresh id,
    /// overwrite a known one whose upstream timestamp is older while keeping
    /// its id, and leave the store alone otherwise. Returns whether the
    /// package changed. Fails, changing nothing, only when a new id is needed
    /// and none is left.
    pub fn update_metadata(&mut self, data: &PackageSearchResult) -> (r: Result<bool, StoreError>)
        requires
            old(self).wf(),
        ensures
            final(self).wf(),
            r is Err <==> update_fails(old(self)@, *data),
            r is Err ==> final(self)@ == old(self)@,
            r matches Ok(changed) ==> {
                &&& changed == planned_write(package_named(old(self)@, data.name@), *data) is Some
                &&& final(self)@ == after_update(old(self)@, *data)
            },
    {
        let existing = self.get_package_by_name(&data.name);
        let plan = plan_metadata_update(&existing, data);
        match plan {
            None => Ok(false),
            Some(MetadataWrite::Update { id, row }) => {
                let i = match self.index_of_name(&data.name) {
                    Some(i) => i,
                    None => {
                        return Ok(false);
                    },
                };
                let ghost before = self@;
                let state = state_from_row(id, row);
                self.packages.set(i, state);
                proof {
                    assert(self@.packages == before.packages.update(i as int, with_row(id, row_of(*data))));
                    assert(self@.results == before.results);
                }
                Ok(true)
            },
            Some(MetadataWrite::Insert(row)) => {
                if self.next_package_id == i32::MAX {
                    return Err(StoreError::IdsExhausted);
                }
                let ghost before = self@;
                let state = state_from_row(self.next_package_id, row);
                self.packages.push(state);
                self.next_package_id = self.next_package_id + 1;
                proof {
                    assert(self@.packages == before.packages.push(with_row(before.next_package_id as i32, row_of(*data))));
                    assert(self@.results == before.results);
                    assert forall|i: int, j: int| 0 <= i < j < self@.packages.len() implies
                        #[trigger] self@.packages[i].name@ != #[trigger] self@.packages[j].name@ by {
                        if j == self@.packages.len() - 1 {
                            assert(before.packages[i].name@ != data.name@);
                        }
                    }
                }
                Ok(true)
            },
        }
    }

    /// Sets the upstream timestamp of the package with this id to `0`, so
    /// that the next detection pass treats it as changed. Returns whether
    /// such a package is stored; nothing else changes.
    pub fn reset_package_last_modified(&mut self, id: i32) -> (r: bool)
        requires
            old(self).wf(),
        ensures
            final(self).wf(),
            r == has_id(old(self)@, id),
            final(self)@.results == old(self)@.results,
            final(self)@.next_package_id == old(self)@.next_package_id,
            final(self)@.packages.len() == old(self)@.packages.len(),
            forall|j: int|
                0 <= j < old(self)@.packages.len() ==> #[trigger] final(self)@.packages[j] == if old(
                    self,
                )@.packages[j].id == id {
                    reset_state(old(self)@.packages[j])
                } else {
                    old(self)@.packages[j]
                },
    {
        match self.index_of_id(id) {
            None => false,
            Some(i) => {
                let ghost before = self@;
                let mut p = self.packages[i].duplicate();
                p.last_modified = 0;
                self.packages.set(i, p);
                proof {
                    assert(self@.results == before.results);
                    assert forall|j: int| 0 <= j < before.packages.len() && j != i implies
                        before.packages[j].id != id by {
                        if j < i {
                            assert(before.packages[j].id != before.packages[i as int].id);
                        } else {
                            assert(before.packages[i as int].id != before.packages[j].id);
                        }
                    }
                }
                true
            },
        }
    }

    /// Records a build result against the package its task names, as
    /// [`after_report`] says: an unknown package is an error and nothing is
    /// written; otherwise one record is appended and packages stay as they
    /// are.
    pub fn save_build_results(&mut self, data: &BuildResultTransmissionFormat) -> (r: Result<
        (),
        ReportError,
    >)
        requires
            old(self).wf(),
        ensures
            final(self).wf(),
            after_report(old(self)@, *data) matches Ok(v) ==> r is Ok && final(self)@ == v,
            after_report(old(self)@, *data) matches Err(e) ==> r == Err::<(), ReportError>(e)
                && final(self)@ == old(self)@,
    {
        let package = self.get_package(data.task.id);
        match plan_report(&package, data) {
            Err(e) => Err(e),
            Ok(rec) => {
                let ghost before = self@;
                let ghost old_results = self.results@;
                self.results.push(rec);
                proof {
                    assert(self.results@.map_values(|x: BuildResultRecord| x@) =~= old_results.map_values(
                        |x: BuildResultRecord| x@,
                    ).push(rec@));
                }
                Ok(())
            },
        }
    }
}

fn state_from_row(id: i32, row: PackageRow) -> (r: PackageState)
    ensures
        r == with_row(id, row),
{
    PackageState {
        id,
        name: row.name,
        version: row.version,
        maintainer: row.maintainer,
        last_modified: row.last_modified,
        source: row.source,
        subfolder: row.subfolder,
    }
}

} // verus!
