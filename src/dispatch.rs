use vstd::prelude::*;
use crate::store::{
    after_update, has_name, index_named, package_named, planned_write, row_of, store_wf,
    update_fails, with_row, MetadataWrite, PackageState, PackageStore, PackageStoreView,
    StoreError,
};
use crate::types::{
    copy_opt_environment, copy_opt_string, env_view, BuildTaskTransmissionFormat, BuildTaskView,
    PackageSearchResult,
};

verus! {

/// The task for a changed package: the id, name, source and subfolder that
/// are stored for it, with the version, options and environment just
/// fetched.
pub open spec fn task_view_for(p: PackageState, data: PackageSearchResult) -> BuildTaskView {
    BuildTaskView {
        id: p.id,
        name: p.name,
        version: data.version,
        source: p.source,
        subfolder: p.subfolder,
        options: data.options,
        env: env_view(data.environment),
    }
}

/// Builds the task for a changed package from its stored state and the data
/// just fetched for it.
pub fn build_task_for(p: &PackageState, data: &PackageSearchResult) -> (r:
    BuildTaskTransmissionFormat)
    ensures
        r@ == task_view_for(*p, *data),
{
    BuildTaskTransmissionFormat {
        id: p.id,
        name: p.name.clone(),
        version: data.version.clone(),
        source: copy_opt_string(&p.source),
        subfolder: copy_opt_string(&p.subfolder),
        options: copy_opt_string(&data.options),
        env: copy_opt_environment(&data.environment),
    }
}

proof fn lemma_updated_package_is_stored(v: PackageStoreView, data: PackageSearchResult)
    requires
        store_wf(v),
        planned_write(package_named(v, data.name@), data) is Some,
        !update_fails(v, data),
    ensures
        has_name(after_update(v, data), data.name@),
{
    let w = after_update(v, data);
    if has_name(v, data.name@) {
        let i = choose|i: int| 0 <= i < v.packages.len() && #[trigger] v.packages[i].name@ == data.name@;
        assert(w.packages[i].name@ == data.name@);
    } else {
        assert(w.packages[v.packages.len() as int].name@ == data.name@);
    }
}

/// One step of the change detector for one fetched package: updates the
/// store and returns the build task to publish when the package changed.
/// No task is returned for a package whose upstream timestamp is not
/// strictly newer than the stored one.
pub fn detect_change(store: &mut PackageStore, data: &PackageSearchResult) -> (r: Result<
    Option<BuildTaskTransmissionFormat>,
    StoreError,
>)
    requires
        old(store).wf(),
    ensures
        final(store).wf(),
        r is Err <==> update_fails(old(store)@, *data),
        r is Err ==> final(store)@ == old(store)@,
        r matches Ok(t) ==> {
            &&& final(store)@ == after_update(old(store)@, *data)
            &&& (t is Some <==> planned_write(package_named(old(store)@, data.name@), *data) is Some)
            &&& t matches Some(task) ==> package_named(final(store)@, data.name@) matches Some(p)
                && task@ == task_view_for(p, *data)
        },
{
    let ghost before = store@;
    let changed = match store.update_metadata(data) {
        Ok(c) => c,
        Err(e) => {
            return Err(e);
        },
    };
    if !changed {
        return Ok(None);
    }
    proof {
        lemma_updated_package_is_stored(before, *data);
    }
    match store.get_package_by_name(&data.name) {
        Some(p) => Ok(Some(build_task_for(&p, data))),
        None => Ok(None),
    }
}

/// A package whose fetched timestamp is not newer than the stored one
/// causes no write and no build task: the store is left as it was.
pub proof fn lemma_no_task_unless_newer(v: PackageStoreView, data: PackageSearchResult)
    requires
        store_wf(v),
        package_named(v, data.name@) matches Some(m) && data.last_modified <= m.last_modified,
    ensures
        planned_write(package_named(v, data.name@), data) is None,
        !update_fails(v, data),
        after_update(v, data) == v,
{
}

/// A package seen for the first time always yields a build task: it is
/// inserted under the next id, with exactly the fetched columns.
pub proof fn lemma_new_package_yields_task(v: PackageStoreView, data: PackageSearchResult)
    requires
        store_wf(v),
        package_named(v, data.name@) is None,
        v.next_package_id < i32::MAX,
    ensures
        planned_write(package_named(v, data.name@), data) == Some(MetadataWrite::Insert(row_of(data))),
        !update_fails(v, data),
        after_update(v, data).packages == v.packages.push(
            with_row(v.next_package_id as i32, row_of(data)),
        ),
{
}

/// The task that one step of the detector emits for fetched data: one when
/// the data calls for a write and the write succeeds.
pub open spec fn task_after(w: PackageStoreView, d: PackageSearchResult) -> Option<BuildTaskView> {
    if planned_write(package_named(w, d.name@), d) is Some && !update_fails(w, d) {
        Some(task_view_for(package_named(after_update(w, d), d.name@)->0, d))
    } else {
        None
    }
}

/// A detection pass over fetched data, in order: the store it leaves and
/// the tasks it emits.
pub open spec fn pass(v: PackageStoreView, fetched: Seq<PackageSearchResult>) -> (
    PackageStoreView,
    Seq<BuildTaskView>,
)
    decreases fetched.len(),
{
    if fetched.len() == 0 {
        (v, Seq::empty())
    } else {
        let (w, tasks) = pass(v, fetched.drop_last());
        let d = fetched.last();
        (
            after_update(w, d),
            match task_after(w, d) {
                Some(t) => tasks.push(t),
                None => tasks,
            },
        )
    }
}

/// One detection pass: applies each fetched package to the store in turn
/// and returns the build tasks to publish, in order. Stops at the first
/// package that needs an id when none is left.
pub fn detect_changes(store: &mut PackageStore, fetched: &Vec<PackageSearchResult>) -> (r: Result<
    Vec<BuildTaskTransmissionFormat>,
    StoreError,
>)
    requires
        old(store).wf(),
    ensures
        final(store).wf(),
        r matches Ok(tasks) ==> {
            &&& final(store)@ == pass(old(store)@, fetched@).0
            &&& tasks@.map_values(|t: BuildTaskTransmissionFormat| t@) == pass(old(store)@, fetched@).1
        },
        r is Err ==> exists|k: int|
            0 <= k < fetched@.len() && #[trigger] update_fails(
                pass(old(store)@, fetched@.take(k)).0,
                fetched@[k],
            ),
{
    let ghost start = store@;
    let mut tasks: Vec<BuildTaskTransmissionFormat> = Vec::new();
    let mut i: usize = 0;
    while i < fetched.len()
        invariant
            i <= fetched.len(),
            start == old(store)@,
            store.wf(),
            store@ == pass(start, fetched@.take(i as int)).0,
            tasks@.map_values(|t: BuildTaskTransmissionFormat| t@) == pass(start, fetched@.take(i as int)).1,
        decreases fetched.len() - i,
    {
        let ghost before = store@;
        let ghost before_tasks = tasks@;
        proof {
            assert(fetched@.take(i as int + 1).drop_last() =~= fetched@.take(i as int));
            assert(fetched@.take(i as int + 1).last() == fetched@[i as int]);
        }
        match detect_change(store, &fetched[i]) {
            Err(e) => {
                proof {
                    assert(update_fails(pass(start, fetched@.take(i as int)).0, fetched@[i as int]));
                }
                return Err(e);
            },
            Ok(Some(t)) => {
                proof {
                    lemma_updated_package_is_stored(before, fetched@[i as int]);
                }
                tasks.push(t);
                proof {
                    assert(tasks@.map_values(|t: BuildTaskTransmissionFormat| t@) =~= before_tasks.map_values(
                        |t: BuildTaskTransmissionFormat| t@,
                    ).push(t@));
                }
            },
            Ok(None) => {},
        }
        i = i + 1;
    }
    proof {
        assert(fetched@.take(fetched@.len() as int) =~= fetched@);
    }
    Ok(tasks)
}

/// With unique names, the position of a package is where its name stands.
proof fn lemma_named_at(v: PackageStoreView, n: Seq<char>, j: int)
    requires
        store_wf(v),
        0 <= j < v.packages.len(),
        v.packages[j].name@ == n,
    ensures
        has_name(v, n),
        index_named(v, n) == j,
        package_named(v, n) == Some(v.packages[j]),
{
    let k = index_named(v, n);
    if k != j {
        if k < j {
            assert(v.packages[k].name@ != v.packages[j].name@);
        } else {
            assert(v.packages[j].name@ != v.packages[k].name@);
        }
    }
}

proof fn lemma_update_keeps_wf(v: PackageStoreView, d: PackageSearchResult)
    requires
        store_wf(v),
    ensures
        store_wf(after_update(v, d)),
        after_update(v, d).next_package_id <= v.next_package_id + 1,
{
    let w = after_update(v, d);
    match planned_write(package_named(v, d.name@), d) {
        None => {},
        Some(MetadataWrite::Insert(row)) => {
            if v.next_package_id < i32::MAX {
                assert forall|i: int, j: int| 0 <= i < j < w.packages.len() implies
                    #[trigger] w.packages[i].name@ != #[trigger] w.packages[j].name@ by {
                    if j == v.packages.len() {
                        assert(v.packages[i].name@ != d.name@);
                    }
                }
            }
        },
        Some(MetadataWrite::Update { id, row }) => {
            let i = index_named(v, d.name@);
            assert(w.packages[i].name@ == v.packages[i].name@);
        },
    }
}

/// Updating one package leaves the stored state of every other name as
/// it was.
proof fn lemma_update_keeps_others(v: PackageStoreView, d: PackageSearchResult, n: Seq<char>)
    requires
        store_wf(v),
        n != d.name@,
    ensures
        package_named(after_update(v, d), n) == package_named(v, n),
{
    let w = after_update(v, d);
    lemma_update_keeps_wf(v, d);
    if has_name(v, n) {
        let j = index_named(v, n);
        if planned_write(package_named(v, d.name@), d) is Some {
            if has_name(v, d.name@) {
                assert(j != index_named(v, d.name@));
            }
        }
        assert(w.packages[j] == v.packages[j]);
        lemma_named_at(w, n, j);
    } else {
        if has_name(w, n) {
            let j = index_named(w, n);
            if j < v.packages.len() && (!has_name(v, d.name@) || j != index_named(v, d.name@)) {
                assert(v.packages[j].name@ == n);
            }
        }
    }
}

proof fn lemma_task_is_named(w: PackageStoreView, d: PackageSearchResult)
    requires
        store_wf(w),
        task_after(w, d) is Some,
    ensures
        task_after(w, d)->0.name@ == d.name@,
{
    lemma_updated_package_is_stored(w, d);
}

/// A pass that touches no package of name `n` leaves its state alone and
/// emits no task for it.
proof fn lemma_pass_frame(v: PackageStoreView, fetched: Seq<PackageSearchResult>, n: Seq<char>)
    requires
        store_wf(v),
        forall|i: int| 0 <= i < fetched.len() ==> #[trigger] fetched[i].name@ != n,
    ensures
        store_wf(pass(v, fetched).0),
        package_named(pass(v, fetched).0, n) == package_named(v, n),
        forall|i: int| 0 <= i < pass(v, fetched).1.len() ==> #[trigger] pass(v, fetched).1[i].name@ != n,
    decreases fetched.len(),
{
    if fetched.len() > 0 {
        let f = fetched.drop_last();
        assert forall|i: int| 0 <= i < f.len() implies #[trigger] f[i].name@ != n by {
            assert(f[i] == fetched[i]);
        }
        lemma_pass_frame(v, f, n);
        let w = pass(v, f).0;
        let d = fetched.last();
        assert(d.name@ != n);
        lemma_update_keeps_wf(w, d);
        lemma_update_keeps_others(w, d, n);
        if task_after(w, d) is Some {
            lemma_task_is_named(w, d);
        }
    }
}

/// A detection pass keeps the store well formed, and hands out at most one
/// new id per fetched package.
proof fn lemma_pass_wf(v: PackageStoreView, fetched: Seq<PackageSearchResult>)
    requires
        store_wf(v),
    ensures
        store_wf(pass(v, fetched).0),
        pass(v, fetched).0.next_package_id <= v.next_package_id + fetched.len(),
    decreases fetched.len(),
{
    if fetched.len() > 0 {
        lemma_pass_wf(v, fetched.drop_last());
        lemma_update_keeps_wf(pass(v, fetched.drop_last()).0, fetched.last());
    }
}

/// In a detection pass, a package whose every fetch is no newer than its
/// stored state gets no build task, and its stored state stays as it was.
pub proof fn lemma_pass_skips_unchanged(v: PackageStoreView, fetched: Seq<PackageSearchResult>, n: Seq<char>)
    requires
        store_wf(v),
        package_named(v, n) matches Some(m) && forall|i: int|
            0 <= i < fetched.len() && #[trigger] fetched[i].name@ == n ==> fetched[i].last_modified
                <= m.last_modified,
    ensures
        package_named(pass(v, fetched).0, n) == package_named(v, n),
        forall|i: int| 0 <= i < pass(v, fetched).1.len() ==> #[trigger] pass(v, fetched).1[i].name@ != n,
    decreases fetched.len(),
{
    if fetched.len() > 0 {
        let f = fetched.drop_last();
        let m = package_named(v, n)->0;
        assert forall|i: int| 0 <= i < f.len() && #[trigger] f[i].name@ == n implies f[i].last_modified
            <= m.last_modified by {
            assert(f[i] == fetched[i]);
        }
        lemma_pass_skips_unchanged(v, f, n);
        lemma_pass_wf(v, f);
        let w = pass(v, f).0;
        let d = fetched.last();
        if d.name@ == n {
            assert(fetched[fetched.len() - 1].name@ == n);
        } else {
            lemma_update_keeps_wf(w, d);
            lemma_update_keeps_others(w, d, n);
            if task_after(w, d) is Some {
                lemma_task_is_named(w, d);
            }
        }
    }
}

/// In a detection pass, a package that was never stored and is fetched
/// yields a build task, as long as ids are left for every fetched package.
pub proof fn lemma_pass_builds_new(v: PackageStoreView, fetched: Seq<PackageSearchResult>, n: Seq<char>)
    requires
        store_wf(v),
        package_named(v, n) is None,
        exists|k: int| 0 <= k < fetched.len() && #[trigger] fetched[k].name@ == n,
        v.next_package_id + fetched.len() < i32::MAX,
    ensures
        exists|i: int| 0 <= i < pass(v, fetched).1.len() && #[trigger] pass(v, fetched).1[i].name@ == n,
    decreases fetched.len(),
{
    let f = fetched.drop_last();
    let d = fetched.last();
    let (w, tasks) = pass(v, f);
    lemma_pass_wf(v, f);
    if exists|k: int| 0 <= k < f.len() && #[trigger] f[k].name@ == n {
        lemma_pass_builds_new(v, f, n);
        let i = choose|i: int| 0 <= i < tasks.len() && #[trigger] tasks[i].name@ == n;
        assert(pass(v, fetched).1[i] == tasks[i]);
    } else {
        assert forall|i: int| 0 <= i < f.len() implies #[trigger] f[i].name@ != n by {}
        lemma_pass_frame(v, f, n);
        let k = choose|k: int| 0 <= k < fetched.len() && #[trigger] fetched[k].name@ == n;
        if k < f.len() {
            assert(f[k] == fetched[k]);
        }
        assert(d.name@ == n);
        lemma_task_is_named(w, d);
        assert(pass(v, fetched).1[tasks.len() as int].name@ == n);
    }
}

} // verus!
