//! Reconciliation: merging a fresh scan with the previous catalog.
//!
//! A catalog is a `Vec<Project>`; its model is the sequence of the projects'
//! views. `path` is the key: a well-formed catalog holds each path once
//! ([`distinct_paths`]).

use vstd::prelude::*;
use vstd::hash_map::StringHashMap;
use vstd::hash_set::StringHashSet;
use crate::models::project::Project;
use crate::models::project::ProjectView;
use crate::models::project::catalog_view;
use crate::text::copy_opt;

verus! {

/// Whether some entry of the catalog has the path.
pub open spec fn has_path(catalog: Seq<ProjectView>, path: Seq<char>) -> bool {
    exists|i: int| 0 <= i < catalog.len() && (#[trigger] catalog[i]).path == path
}

/// Whether no two entries of the catalog share a path.
pub open spec fn distinct_paths(catalog: Seq<ProjectView>) -> bool {
    forall|i: int, j: int|
        0 <= i < j < catalog.len() ==> (#[trigger] catalog[i]).path != (#[trigger] catalog[j]).path
}

/// The entry of the catalog with the path; the last one, should the catalog
/// hold several.
pub open spec fn lookup(catalog: Seq<ProjectView>, path: Seq<char>) -> Option<ProjectView>
    decreases catalog.len(),
{
    if catalog.len() == 0 {
        None
    } else if catalog.last().path == path {
        Some(catalog.last())
    } else {
        lookup(catalog.drop_last(), path)
    }
}

/// A freshly scanned entry with the user-owned fields of its predecessor:
/// open count, launcher binding, pin, classification, last-opened time and
/// alias come from `previous`, everything else from `fresh`.
pub open spec fn carry_over(fresh: ProjectView, previous: ProjectView) -> ProjectView {
    ProjectView {
        hits: previous.hits,
        launcher_id: previous.launcher_id,
        top: previous.top,
        project_type: previous.project_type,
        last_opened: previous.last_opened,
        alias: previous.alias,
        ..fresh
    }
}

/// What becomes of one freshly scanned entry: merged with the previous
/// entry of the same path where there is one, unchanged otherwise.
pub open spec fn merged(previous: Seq<ProjectView>, fresh: ProjectView) -> ProjectView {
    match lookup(previous, fresh.path) {
        Some(old) => carry_over(fresh, old),
        None => fresh,
    }
}

/// The freshly scanned entries, each merged with its predecessor.
pub open spec fn merged_scan(previous: Seq<ProjectView>, fresh: Seq<ProjectView>) -> Seq<
    ProjectView,
> {
    Seq::new(fresh.len(), |i: int| merged(previous, fresh[i]))
}

/// The custom entries of the previous catalog that the scan did not find,
/// in their previous order.
pub open spec fn kept_custom(previous: Seq<ProjectView>, fresh: Seq<ProjectView>) -> Seq<
    ProjectView,
>
    decreases previous.len(),
{
    if previous.len() == 0 {
        Seq::empty()
    } else {
        let rest = kept_custom(previous.drop_last(), fresh);
        let p = previous.last();
        if p.is_custom && !has_path(fresh, p.path) {
            rest.push(p)
        } else {
            rest
        }
    }
}

/// The catalog after a rescan: every freshly scanned entry, merged with its
/// predecessor, followed by the custom entries the scan did not find.
/// Previous entries that are neither found again nor custom are gone.
pub open spec fn reconciled(previous: Seq<ProjectView>, fresh: Seq<ProjectView>) -> Seq<
    ProjectView,
> {
    merged_scan(previous, fresh) + kept_custom(previous, fresh)
}

/// A copy of a freshly scanned project that carries the user-owned fields of
/// its predecessor.
pub fn carry_forward(fresh: &Project, previous: &Project) -> (r: Project)
    ensures
        r@ == carry_over(fresh@, previous@),
{
    Project {
        name: fresh.name.clone(),
        path: fresh.path.clone(),
        project_type: copy_opt(&previous.project_type),
        version_control: fresh.version_control,
        hits: previous.hits,
        launcher_id: copy_opt(&previous.launcher_id),
        top: previous.top,
        is_custom: fresh.is_custom,
        last_opened: copy_opt(&previous.last_opened),
        alias: copy_opt(&previous.alias),
    }
}

/// For every path, the position of the catalog's last entry with it.
fn index_by_path(catalog: &Vec<Project>) -> (index: StringHashMap<usize>)
    ensures
        forall|path: Seq<char>|
            match #[trigger] lookup(catalog_view(catalog@), path) {
                Some(entry) => index@.contains_key(path) && index@[path] < catalog.len()
                    && catalog[index@[path] as int]@ == entry,
                None => !index@.contains_key(path),
            },
{
    let mut index: StringHashMap<usize> = StringHashMap::new();
    let mut i: usize = 0;
    let ghost views = catalog_view(catalog@);
    while i < catalog.len()
        invariant
            i <= catalog.len(),
            views == catalog_view(catalog@),
            forall|path: Seq<char>|
                match #[trigger] lookup(views.take(i as int), path) {
                    Some(entry) => index@.contains_key(path) && index@[path] < catalog.len()
                        && catalog[index@[path] as int]@ == entry,
                    None => !index@.contains_key(path),
                },
        decreases catalog.len() - i,
    {
        let ghost before = views.take(i as int);
        let ghost upto = views.take(i + 1);
        let ghost earlier = index@;
        assert(upto.drop_last() == before);
        assert(upto.last() == catalog[i as int]@);
        index.insert(catalog[i].path.clone(), i);
        assert forall|path: Seq<char>|
            match #[trigger] lookup(upto, path) {
                Some(entry) => index@.contains_key(path) && index@[path] < catalog.len()
                    && catalog[index@[path] as int]@ == entry,
                None => !index@.contains_key(path),
            } by {
            if path != catalog[i as int]@.path {
                assert(lookup(upto, path) == lookup(before, path));
                assert(index@.contains_key(path) == earlier.contains_key(path));
            }
        }
        i += 1;
    }
    assert(views.take(catalog.len() as int) == views);
    index
}

/// The paths of a catalog.
fn path_set(catalog: &Vec<Project>) -> (paths: StringHashSet)
    ensures
        forall|path: Seq<char>|
            paths@.contains(path) <==> has_path(catalog_view(catalog@), path),
{
    let mut paths = StringHashSet::new();
    let mut i: usize = 0;
    let ghost views = catalog_view(catalog@);
    while i < catalog.len()
        invariant
            i <= catalog.len(),
            views == catalog_view(catalog@),
            forall|path: Seq<char>|
                paths@.contains(path) <==> has_path(views.take(i as int), path),
        decreases catalog.len() - i,
    {
        let ghost before = views.take(i as int);
        let ghost upto = views.take(i + 1);
        paths.insert(catalog[i].path.clone());
        assert forall|path: Seq<char>| paths@.contains(path) <==> has_path(upto, path) by {
            if has_path(upto, path) {
                let k = choose|k: int| 0 <= k < upto.len() && (#[trigger] upto[k]).path == path;
                if k < i {
                    assert(before[k].path == path);
                }
            }
            if has_path(before, path) {
                let k = choose|k: int|
                    0 <= k < before.len() && (#[trigger] before[k]).path == path;
                assert(upto[k].path == path);
            }
            if path == catalog[i as int]@.path {
                assert(upto[i as int].path == path);
            }
        }
        i += 1;
    }
    assert(views.take(catalog.len() as int) == views);
    paths
}

/// Merges a fresh scan with the previous catalog.
///
/// Every freshly scanned entry is kept, with the user-owned fields of the
/// previous entry of the same path where there is one. Custom entries of the
/// previous catalog that the scan did not find follow, in their previous
/// order. Nothing else of the previous catalog remains.
pub fn reconcile(previous: &Vec<Project>, fresh: &Vec<Project>) -> (r: Vec<Project>)
    ensures
        catalog_view(r@) == reconciled(catalog_view(previous@), catalog_view(fresh@)),
{
    let index = index_by_path(previous);
    let scanned = path_set(fresh);
    let ghost old_views = catalog_view(previous@);
    let ghost new_views = catalog_view(fresh@);
    let mut out: Vec<Project> = Vec::new();
    let mut i: usize = 0;
    while i < fresh.len()
        invariant
            i <= fresh.len(),
            old_views == catalog_view(previous@),
            new_views == catalog_view(fresh@),
            forall|path: Seq<char>|
                match #[trigger] lookup(old_views, path) {
                    Some(entry) => index@.contains_key(path) && index@[path] < previous.len()
                        && previous[index@[path] as int]@ == entry,
                    None => !index@.contains_key(path),
                },
            out.len() == i,
            forall|j: int| 0 <= j < i ==> (#[trigger] out[j])@ == merged(old_views, new_views[j]),
        decreases fresh.len() - i,
    {
        let entry = &fresh[i];
        assert(new_views[i as int] == entry@);
        let ghost found = lookup(old_views, entry.path@);
        let merged_entry = match index.get(entry.path.as_str()) {
            Some(position) => {
                assert(found is Some);
                carry_forward(entry, &previous[*position])
            },
            None => {
                assert(found is None);
                entry.clone()
            },
        };
        out.push(merged_entry);
        i += 1;
    }
    assert(catalog_view(out@) =~= merged_scan(old_views, new_views));
    let ghost head = merged_scan(old_views, new_views);
    let mut k: usize = 0;
    assert(kept_custom(old_views.take(0), new_views) =~= Seq::<ProjectView>::empty());
    assert(head + Seq::<ProjectView>::empty() =~= head);
    while k < previous.len()
        invariant
            k <= previous.len(),
            old_views == catalog_view(previous@),
            new_views == catalog_view(fresh@),
            head == merged_scan(old_views, new_views),
            forall|path: Seq<char>| scanned@.contains(path) <==> has_path(new_views, path),
            catalog_view(out@) == head + kept_custom(old_views.take(k as int), new_views),
        decreases previous.len() - k,
    {
        let entry = &previous[k];
        let ghost upto = old_views.take(k + 1);
        let ghost kept = kept_custom(old_views.take(k as int), new_views);
        assert(upto.drop_last() == old_views.take(k as int));
        assert(upto.last() == entry@);
        if entry.is_custom && !scanned.contains(entry.path.as_str()) {
            let ghost before = catalog_view(out@);
            out.push(entry.clone());
            assert(catalog_view(out@) =~= before.push(entry@));
            assert(before.push(entry@) =~= head + kept.push(entry@));
        }
        k += 1;
    }
    assert(old_views.take(previous.len() as int) == old_views);
    out
}

/// What `lookup` finds has the path asked for and stands in the catalog;
/// where it finds nothing, no entry has the path.
pub proof fn lemma_lookup_sound(catalog: Seq<ProjectView>, path: Seq<char>)
    ensures
        match lookup(catalog, path) {
            Some(entry) => entry.path == path && catalog.contains(entry),
            None => !has_path(catalog, path),
        },
    decreases catalog.len(),
{
    if catalog.len() > 0 {
        let init = catalog.drop_last();
        if catalog.last().path == path {
            assert(catalog[catalog.len() - 1] == catalog.last());
        } else {
            lemma_lookup_sound(init, path);
            match lookup(init, path) {
                Some(entry) => {
                    let k = choose|k: int| 0 <= k < init.len() && init[k] == entry;
                    assert(catalog[k] == entry);
                },
                None => {
                    if has_path(catalog, path) {
                        let k = choose|k: int|
                            0 <= k < catalog.len() && (#[trigger] catalog[k]).path == path;
                        assert(init[k].path == path);
                    }
                },
            }
        }
    }
}

/// In a catalog without repeated paths, `lookup` finds each entry by its
/// own path.
pub proof fn lemma_lookup_distinct(catalog: Seq<ProjectView>, k: int)
    requires
        distinct_paths(catalog),
        0 <= k < catalog.len(),
    ensures
        lookup(catalog, catalog[k].path) == Some(catalog[k]),
    decreases catalog.len(),
{
    let init = catalog.drop_last();
    if k == catalog.len() - 1 {
    } else {
        assert(catalog[k].path != catalog[catalog.len() - 1].path);
        assert forall|i: int, j: int| 0 <= i < j < init.len() implies (#[trigger] init[i]).path != (
        #[trigger] init[j]).path by {
            assert(init[i] == catalog[i] && init[j] == catalog[j]);
        }
        assert(init[k] == catalog[k]);
        lemma_lookup_distinct(init, k);
    }
}

/// Entries appended to a catalog do not change what `lookup` finds for a
/// path that none of them has.
proof fn lemma_lookup_ignores_tail(
    head: Seq<ProjectView>,
    tail: Seq<ProjectView>,
    path: Seq<char>,
)
    requires
        !has_path(tail, path),
    ensures
        lookup(head + tail, path) == lookup(head, path),
    decreases tail.len(),
{
    if tail.len() == 0 {
        assert(head + tail == head);
    } else {
        let all = head + tail;
        assert(all.last() == tail.last());
        assert(all.drop_last() == head + tail.drop_last());
        assert(tail[tail.len() - 1].path != path);
        if has_path(tail.drop_last(), path) {
            let k = choose|k: int|
                0 <= k < tail.drop_last().len() && (#[trigger] tail.drop_last()[k]).path == path;
            assert(tail[k].path == path);
        }
        lemma_lookup_ignores_tail(head, tail.drop_last(), path);
    }
}

/// Looking a path up among the merged entries gives the merged form of what
/// the lookup finds among the fresh ones: merging keeps paths.
proof fn lemma_lookup_merged_scan(
    previous: Seq<ProjectView>,
    fresh: Seq<ProjectView>,
    path: Seq<char>,
)
    ensures
        lookup(merged_scan(previous, fresh), path) == match lookup(fresh, path) {
            Some(entry) => Some(merged(previous, entry)),
            None => None,
        },
    decreases fresh.len(),
{
    let all = merged_scan(previous, fresh);
    if fresh.len() > 0 {
        assert(all.last() == merged(previous, fresh.last()));
        assert(all.drop_last() == merged_scan(previous, fresh.drop_last()));
        lemma_lookup_merged_scan(previous, fresh.drop_last(), path);
    }
}

/// The entries that `kept_custom` keeps are exactly the custom entries of
/// the previous catalog whose path the scan did not find.
pub proof fn lemma_kept_custom_members(
    previous: Seq<ProjectView>,
    fresh: Seq<ProjectView>,
    entry: ProjectView,
)
    ensures
        kept_custom(previous, fresh).contains(entry) <==> (previous.contains(entry)
            && entry.is_custom && !has_path(fresh, entry.path)),
    decreases previous.len(),
{
    let kept = kept_custom(previous, fresh);
    if previous.len() == 0 {
    } else {
        let init = previous.drop_last();
        let rest = kept_custom(init, fresh);
        let last = previous.last();
        lemma_kept_custom_members(init, fresh, entry);
        if rest.contains(entry) {
            let k = choose|k: int| 0 <= k < rest.len() && rest[k] == entry;
            assert(kept[k] == entry);
            let m = choose|m: int| 0 <= m < init.len() && init[m] == entry;
            assert(previous[m] == entry);
        }
        if last == entry && entry.is_custom && !has_path(fresh, entry.path) {
            assert(kept[kept.len() - 1] == entry);
        }
        if kept.contains(entry) {
            let k = choose|k: int| 0 <= k < kept.len() && kept[k] == entry;
            if k < rest.len() {
                assert(rest[k] == entry);
            } else {
                assert(previous[previous.len() - 1] == entry);
            }
        }
        if previous.contains(entry) && entry.is_custom && !has_path(fresh, entry.path) {
            let m = choose|m: int| 0 <= m < previous.len() && previous[m] == entry;
            if m < init.len() {
                assert(init[m] == entry);
            }
        }
    }
}

/// `kept_custom` works entry by entry: what it keeps of two catalogs put
/// end to end is what it keeps of each, put end to end.
proof fn lemma_kept_custom_concat(
    head: Seq<ProjectView>,
    tail: Seq<ProjectView>,
    fresh: Seq<ProjectView>,
)
    ensures
        kept_custom(head + tail, fresh) == kept_custom(head, fresh) + kept_custom(tail, fresh),
    decreases tail.len(),
{
    if tail.len() == 0 {
        assert(head + tail == head);
        assert(kept_custom(head, fresh) + Seq::<ProjectView>::empty() == kept_custom(head, fresh));
    } else {
        let all = head + tail;
        assert(all.last() == tail.last());
        assert(all.drop_last() == head + tail.drop_last());
        lemma_kept_custom_concat(head, tail.drop_last(), fresh);
        let a = kept_custom(head, fresh);
        let b = kept_custom(tail.drop_last(), fresh);
        assert((a + b).push(tail.last()) == a + b.push(tail.last()));
    }
}

/// Nothing is kept of a catalog whose every entry the scan found.
proof fn lemma_kept_custom_nothing(catalog: Seq<ProjectView>, fresh: Seq<ProjectView>)
    requires
        forall|i: int| 0 <= i < catalog.len() ==> has_path(fresh, (#[trigger] catalog[i]).path),
    ensures
        kept_custom(catalog, fresh) == Seq::<ProjectView>::empty(),
    decreases catalog.len(),
{
    if catalog.len() > 0 {
        let init = catalog.drop_last();
        assert forall|i: int| 0 <= i < init.len() implies has_path(
            fresh,
            (#[trigger] init[i]).path,
        ) by {
            assert(init[i] == catalog[i]);
        }
        lemma_kept_custom_nothing(init, fresh);
        assert(has_path(fresh, catalog[catalog.len() - 1].path));
    }
}

/// Everything is kept of a catalog of custom entries that the scan did not
/// find.
proof fn lemma_kept_custom_everything(catalog: Seq<ProjectView>, fresh: Seq<ProjectView>)
    requires
        forall|i: int|
            0 <= i < catalog.len() ==> (#[trigger] catalog[i]).is_custom && !has_path(
                fresh,
                catalog[i].path,
            ),
    ensures
        kept_custom(catalog, fresh) == catalog,
    decreases catalog.len(),
{
    if catalog.len() > 0 {
        let init = catalog.drop_last();
        assert forall|i: int| 0 <= i < init.len() implies (#[trigger] init[i]).is_custom
            && !has_path(fresh, init[i].path) by {
            assert(init[i] == catalog[i]);
        }
        lemma_kept_custom_everything(init, fresh);
        assert(catalog[catalog.len() - 1].is_custom);
        assert(init.push(catalog.last()) == catalog);
    }
}

/// Whether the entries of a scan that share a path also share their
/// user-owned fields. That holds of every scan without repeated paths and
/// of every scan made of scan records.
pub open spec fn consistent_scan(fresh: Seq<ProjectView>) -> bool {
    forall|i: int, j: int|
        0 <= i < fresh.len() && 0 <= j < fresh.len() && (#[trigger] fresh[i]).path == (
        #[trigger] fresh[j]).path ==> carry_over(fresh[i], fresh[j]) == fresh[i]
}

/// Idempotence, in its general form: reconciling the result of a rescan
/// against the same scan again changes nothing, entry for entry and in the
/// same order, provided the scan is consistent.
pub proof fn lemma_reconcile_idempotent_consistent(
    previous: Seq<ProjectView>,
    fresh: Seq<ProjectView>,
)
    requires
        consistent_scan(fresh),
    ensures
        reconciled(reconciled(previous, fresh), fresh) == reconciled(previous, fresh),
{
    let head = merged_scan(previous, fresh);
    let once = reconciled(previous, fresh);
    assert forall|i: int| 0 <= i < fresh.len() implies merged(once, #[trigger] fresh[i])
        == head[i] by {
        lemma_merged_again(previous, fresh, i);
    }
    assert(merged_scan(once, fresh) =~= head);
    lemma_kept_again(previous, fresh);
}

/// Idempotence: reconciling the result of a rescan against the same scan
/// again changes nothing, entry for entry and in the same order.
pub proof fn lemma_reconcile_idempotent(previous: Seq<ProjectView>, fresh: Seq<ProjectView>)
    requires
        forall|i: int| 0 <= i < fresh.len() ==> (#[trigger] fresh[i]).is_scan_record(),
    ensures
        reconciled(reconciled(previous, fresh), fresh) == reconciled(previous, fresh),
{
    lemma_reconcile_idempotent_consistent(previous, fresh);
}

/// Idempotence holds as well of any list of fresh entries that repeats no
/// path, whatever their user-owned fields.
pub proof fn lemma_reconcile_idempotent_distinct(
    previous: Seq<ProjectView>,
    fresh: Seq<ProjectView>,
)
    requires
        distinct_paths(fresh),
    ensures
        reconciled(reconciled(previous, fresh), fresh) == reconciled(previous, fresh),
{
    assert forall|i: int, j: int|
        0 <= i < fresh.len() && 0 <= j < fresh.len() && (#[trigger] fresh[i]).path == (
        #[trigger] fresh[j]).path implies carry_over(fresh[i], fresh[j]) == fresh[i] by {
        if i < j {
            assert(fresh[i].path != fresh[j].path);
        } else if j < i {
            assert(fresh[j].path != fresh[i].path);
        }
    }
    lemma_reconcile_idempotent_consistent(previous, fresh);
}

/// Whether two catalogs hold the same entries, each as often, in whatever
/// order.
pub open spec fn same_entries(a: Seq<ProjectView>, b: Seq<ProjectView>) -> bool {
    a.to_multiset() == b.to_multiset()
}

/// Catalogs that hold the same entries hold the same paths.
proof fn lemma_same_entries_same_paths(a: Seq<ProjectView>, b: Seq<ProjectView>, path: Seq<char>)
    requires
        same_entries(a, b),
    ensures
        has_path(a, path) ==> has_path(b, path),
{
    broadcast use vstd::seq_lib::group_to_multiset_ensures;

    if has_path(a, path) {
        let i = choose|i: int| 0 <= i < a.len() && (#[trigger] a[i]).path == path;
        assert(a.contains(a[i]));
        assert(a.to_multiset().count(a[i]) > 0);
        assert(b.to_multiset().count(a[i]) > 0);
        assert(b.contains(a[i]));
        let j = choose|j: int| 0 <= j < b.len() && b[j] == a[i];
        assert(b[j].path == path);
    }
}

/// What is kept of a catalog depends on the scan only through the paths
/// the scan holds.
proof fn lemma_kept_custom_same_paths(
    previous: Seq<ProjectView>,
    a: Seq<ProjectView>,
    b: Seq<ProjectView>,
)
    requires
        forall|path: Seq<char>| has_path(a, path) == has_path(b, path),
    ensures
        kept_custom(previous, a) == kept_custom(previous, b),
    decreases previous.len(),
{
    if previous.len() > 0 {
        lemma_kept_custom_same_paths(previous.drop_last(), a, b);
    }
}

/// Merging entry by entry keeps what is equal up to ordering equal up to
/// ordering.
proof fn lemma_merged_scan_reordered(
    previous: Seq<ProjectView>,
    a: Seq<ProjectView>,
    b: Seq<ProjectView>,
)
    requires
        same_entries(a, b),
    ensures
        same_entries(merged_scan(previous, a), merged_scan(previous, b)),
    decreases a.len(),
{
    broadcast use vstd::seq_lib::group_to_multiset_ensures;

    let ma = merged_scan(previous, a);
    let mb = merged_scan(previous, b);
    assert(a.len() == a.to_multiset().len() && b.len() == b.to_multiset().len());
    if a.len() == 0 {
        assert(ma =~= mb);
    } else {
        let x = b.last();
        let rest_b = b.drop_last();
        assert(b == rest_b.push(x));
        assert(b.to_multiset() =~= rest_b.to_multiset().insert(x));
        assert(b.contains(x)) by {
            assert(b[b.len() - 1] == x);
        }
        assert(b.to_multiset().count(x) > 0);
        assert(a.to_multiset().count(x) > 0);
        assert(a.contains(x));
        let k = choose|k: int| 0 <= k < a.len() && a[k] == x;
        let rest_a = a.remove(k);
        assert(rest_a.to_multiset() =~= a.to_multiset().remove(x));
        assert(rest_b.to_multiset() =~= b.to_multiset().remove(x));
        lemma_merged_scan_reordered(previous, rest_a, rest_b);
        let mra = merged_scan(previous, rest_a);
        let mrb = merged_scan(previous, rest_b);
        assert(ma.remove(k) =~= mra);
        assert(mb =~= mrb.push(merged(previous, x)));
        assert(ma[k] == merged(previous, x));
        assert(ma.remove(k).to_multiset() =~= ma.to_multiset().remove(ma[k]));
        assert(ma.to_multiset().count(ma[k]) > 0) by {
            assert(ma.contains(ma[k]));
        }
        assert(ma.to_multiset() =~= mra.to_multiset().insert(merged(previous, x)));
        assert(mb.to_multiset() =~= mrb.to_multiset().insert(merged(previous, x)));
    }
}

/// Merging a scan entry with the result of its own rescan gives what
/// merging it with the previous catalog gave.
proof fn lemma_merged_again(previous: Seq<ProjectView>, fresh: Seq<ProjectView>, i: int)
    requires
        consistent_scan(fresh),
        0 <= i < fresh.len(),
    ensures
        merged(reconciled(previous, fresh), fresh[i]) == merged(previous, fresh[i]),
{
    let head = merged_scan(previous, fresh);
    let kept = kept_custom(previous, fresh);
    let entry = fresh[i];
    let path = entry.path;
    if has_path(kept, path) {
        let k = choose|k: int| 0 <= k < kept.len() && (#[trigger] kept[k]).path == path;
        lemma_kept_custom_members(previous, fresh, kept[k]);
        assert(fresh[i].path == kept[k].path);
    }
    lemma_lookup_ignores_tail(head, kept, path);
    lemma_lookup_merged_scan(previous, fresh, path);
    lemma_lookup_sound(fresh, path);
    let twin = lookup(fresh, path)->0;
    let k = choose|k: int| 0 <= k < fresh.len() && fresh[k] == twin;
    assert(carry_over(fresh[i], fresh[k]) == fresh[i]);
}

/// What is kept of the result of a rescan, against the same scan, is what
/// was kept before.
proof fn lemma_kept_again(previous: Seq<ProjectView>, fresh: Seq<ProjectView>)
    ensures
        kept_custom(reconciled(previous, fresh), fresh) == kept_custom(previous, fresh),
{
    let head = merged_scan(previous, fresh);
    let kept = kept_custom(previous, fresh);
    lemma_kept_custom_concat(head, kept, fresh);
    assert forall|i: int| 0 <= i < head.len() implies has_path(
        fresh,
        (#[trigger] head[i]).path,
    ) by {
        assert(fresh[i].path == head[i].path);
    }
    lemma_kept_custom_nothing(head, fresh);
    assert forall|i: int| 0 <= i < kept.len() implies (#[trigger] kept[i]).is_custom && !has_path(
        fresh,
        kept[i].path,
    ) by {
        lemma_kept_custom_members(previous, fresh, kept[i]);
    }
    lemma_kept_custom_everything(kept, fresh);
    assert(Seq::<ProjectView>::empty() + kept == kept);
}

/// Idempotence up to ordering: a second scan that finds the same projects
/// in another order gives a catalog with the same entries as the first,
/// each as often.
pub proof fn lemma_reconcile_idempotent_reordered(
    previous: Seq<ProjectView>,
    first: Seq<ProjectView>,
    second: Seq<ProjectView>,
)
    requires
        consistent_scan(first),
        same_entries(first, second),
    ensures
        same_entries(
            reconciled(reconciled(previous, first), second),
            reconciled(previous, first),
        ),
{
    broadcast use vstd::seq_lib::group_to_multiset_ensures;

    let once = reconciled(previous, first);
    let kept = kept_custom(previous, first);
    assert forall|i: int| 0 <= i < second.len() implies merged(once, #[trigger] second[i])
        == merged(previous, second[i]) by {
        assert(second.contains(second[i]));
        assert(second.to_multiset().count(second[i]) > 0);
        assert(first.to_multiset().count(second[i]) > 0);
        assert(first.contains(second[i]));
        let k = choose|k: int| 0 <= k < first.len() && first[k] == second[i];
        lemma_merged_again(previous, first, k);
    }
    assert(merged_scan(once, second) =~= merged_scan(previous, second));
    assert forall|path: Seq<char>| has_path(first, path) == has_path(second, path) by {
        lemma_same_entries_same_paths(first, second, path);
        lemma_same_entries_same_paths(second, first, path);
    }
    lemma_kept_custom_same_paths(once, second, first);
    lemma_kept_again(previous, first);
    lemma_merged_scan_reordered(previous, second, first);
    vstd::seq_lib::lemma_multiset_commutative(merged_scan(previous, second), kept);
    vstd::seq_lib::lemma_multiset_commutative(merged_scan(previous, first), kept);
}

/// User-owned fields survive a rescan: an entry that the scan finds again
/// comes back at the scan's position with the scan's name and version
/// control and its own open count, launcher binding, pin, classification,
/// last-opened time and alias.
pub proof fn lemma_user_fields_survive(
    previous: Seq<ProjectView>,
    fresh: Seq<ProjectView>,
    k: int,
    i: int,
)
    requires
        distinct_paths(previous),
        0 <= k < previous.len(),
        0 <= i < fresh.len(),
        fresh[i].path == previous[k].path,
    ensures
        reconciled(previous, fresh)[i] == carry_over(fresh[i], previous[k]),
        reconciled(previous, fresh)[i].hits == previous[k].hits,
        reconciled(previous, fresh)[i].top == previous[k].top,
        reconciled(previous, fresh)[i].launcher_id == previous[k].launcher_id,
        reconciled(previous, fresh)[i].project_type == previous[k].project_type,
        reconciled(previous, fresh)[i].last_opened == previous[k].last_opened,
        reconciled(previous, fresh)[i].alias == previous[k].alias,
        reconciled(previous, fresh)[i].name == fresh[i].name,
        reconciled(previous, fresh)[i].version_control == fresh[i].version_control,
{
    lemma_lookup_distinct(previous, k);
}

/// An entry that the scan finds for the first time keeps what the scan
/// reported.
pub proof fn lemma_new_entries_unchanged(
    previous: Seq<ProjectView>,
    fresh: Seq<ProjectView>,
    i: int,
)
    requires
        0 <= i < fresh.len(),
        !has_path(previous, fresh[i].path),
    ensures
        reconciled(previous, fresh)[i] == fresh[i],
{
    lemma_lookup_sound(previous, fresh[i].path);
    match lookup(previous, fresh[i].path) {
        Some(entry) => {
            let k = choose|k: int| 0 <= k < previous.len() && previous[k] == entry;
            assert(previous[k].path == fresh[i].path);
        },
        None => {},
    }
}

/// Custom entries are never pruned: one that the scan does not find stays in
/// the catalog as it was.
pub proof fn lemma_custom_entries_survive(
    previous: Seq<ProjectView>,
    fresh: Seq<ProjectView>,
    k: int,
)
    requires
        0 <= k < previous.len(),
        previous[k].is_custom,
        !has_path(fresh, previous[k].path),
    ensures
        reconciled(previous, fresh).contains(previous[k]),
{
    let head = merged_scan(previous, fresh);
    let kept = kept_custom(previous, fresh);
    assert(previous.contains(previous[k]));
    lemma_kept_custom_members(previous, fresh, previous[k]);
    let m = choose|m: int| 0 <= m < kept.len() && kept[m] == previous[k];
    assert((head + kept)[head.len() + m] == previous[k]);
}

/// Entries that vanished are dropped: a path that the scan does not find,
/// and that no custom entry has, is absent from the catalog afterwards.
pub proof fn lemma_vanished_entries_dropped(
    previous: Seq<ProjectView>,
    fresh: Seq<ProjectView>,
    path: Seq<char>,
)
    requires
        !has_path(fresh, path),
        forall|k: int|
            0 <= k < previous.len() && (#[trigger] previous[k]).path == path
                ==> !previous[k].is_custom,
    ensures
        !has_path(reconciled(previous, fresh), path),
{
    let head = merged_scan(previous, fresh);
    let kept = kept_custom(previous, fresh);
    let all = head + kept;
    if has_path(all, path) {
        let i = choose|i: int| 0 <= i < all.len() && (#[trigger] all[i]).path == path;
        if i < head.len() {
            assert(fresh[i].path == path);
        } else {
            let entry = kept[i - head.len()];
            assert(kept.contains(entry));
            lemma_kept_custom_members(previous, fresh, entry);
            let k = choose|k: int| 0 <= k < previous.len() && previous[k] == entry;
            assert(previous[k].path == path);
        }
    }
}

/// Reconciliation neither invents nor duplicates: where neither the previous
/// catalog nor the scan repeats a path, the result does not either.
pub proof fn lemma_reconciled_paths_distinct(
    previous: Seq<ProjectView>,
    fresh: Seq<ProjectView>,
)
    requires
        distinct_paths(previous),
        distinct_paths(fresh),
    ensures
        distinct_paths(reconciled(previous, fresh)),
{
    let head = merged_scan(previous, fresh);
    let kept = kept_custom(previous, fresh);
    let all = head + kept;
    lemma_kept_custom_order(previous, fresh);
    assert forall|i: int, j: int| 0 <= i < j < all.len() implies (#[trigger] all[i]).path != (
    #[trigger] all[j]).path by {
        if j < head.len() {
            assert(head[i].path == fresh[i].path && head[j].path == fresh[j].path);
        } else if i < head.len() {
            let entry = kept[j - head.len()];
            assert(kept.contains(entry));
            lemma_kept_custom_members(previous, fresh, entry);
            assert(fresh[i].path == head[i].path);
        } else {
            assert(all[i] == kept[i - head.len()]);
            assert(all[j] == kept[j - head.len()]);
        }
    }
}

/// `kept_custom` keeps the order of the previous catalog, so it repeats no
/// path that the previous catalog does not repeat.
proof fn lemma_kept_custom_order(previous: Seq<ProjectView>, fresh: Seq<ProjectView>)
    requires
        distinct_paths(previous),
    ensures
        distinct_paths(kept_custom(previous, fresh)),
    decreases previous.len(),
{
    let kept = kept_custom(previous, fresh);
    if previous.len() > 0 {
        let init = previous.drop_last();
        let rest = kept_custom(init, fresh);
        assert forall|i: int, j: int| 0 <= i < j < init.len() implies (#[trigger] init[i]).path != (
        #[trigger] init[j]).path by {
            assert(init[i] == previous[i] && init[j] == previous[j]);
        }
        lemma_kept_custom_order(init, fresh);
        assert forall|i: int, j: int| 0 <= i < j < kept.len() implies (#[trigger] kept[i]).path != (
        #[trigger] kept[j]).path by {
            if j < rest.len() {
                assert(kept[i] == rest[i] && kept[j] == rest[j]);
            } else {
                assert(kept[i] == rest[i]);
                assert(rest.contains(rest[i]));
                lemma_kept_custom_members(init, fresh, rest[i]);
                let m = choose|m: int| 0 <= m < init.len() && init[m] == rest[i];
                assert(previous[m] == rest[i]);
                assert(previous[previous.len() - 1] == kept[j]);
            }
        }
    }
}

} // verus!
