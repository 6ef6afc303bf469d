//! Where an interpreter may lie: the candidate tables of the two bundle
//! layouts, and the home that goes with an interpreter.

use crate::paths::{location_views, opt_location, Location, LocationView};
use vstd::prelude::*;

verus! {

/// The worker's entry point, relative to a root.
pub open spec fn backend_names() -> Seq<Seq<char>> {
    seq!["backend"@, "main.py"@]
}

/// The platforms a bundled interpreter may have been built for.
pub open spec fn target_triples() -> Seq<Seq<char>> {
    seq![
        "aarch64-apple-darwin"@,
        "x86_64-apple-darwin"@,
        "x86_64-pc-windows-msvc"@,
        "aarch64-unknown-linux-gnu"@,
        "x86_64-unknown-linux-gnu"@,
    ]
}

/// Where the interpreter may lie below the directory of a bundled runtime.
pub open spec fn bundled_subpaths() -> Seq<Seq<Seq<char>>> {
    seq![
        seq!["bin"@, "python3"@],
        seq!["bin"@, "python"@],
        seq!["python.exe"@],
        seq!["python3.exe"@],
    ]
}

/// Where the interpreter may lie below the `python` directory of the older
/// layout.
pub open spec fn legacy_subpaths() -> Seq<Seq<Seq<char>>> {
    seq![
        seq!["python.exe"@],
        seq!["python"@],
        seq!["python3"@],
        seq!["bin"@, "python3"@],
        seq!["bin"@, "python"@],
    ]
}

/// One candidate below `dir` for each entry of `subpaths`, in order.
pub open spec fn candidates_under(dir: LocationView, subpaths: Seq<Seq<Seq<char>>>) -> Seq<
    LocationView,
> {
    Seq::new(subpaths.len(), |j: int| dir.descend(subpaths[j]))
}

/// The directory of the runtime bundled for `target`.
pub open spec fn runtime_dir(root: LocationView, target: Seq<char>) -> LocationView {
    root.child("python-"@ + target)
}

/// The candidates below `root` for the given targets: target by target, and
/// for each target sub-path by sub-path.
pub open spec fn bundled_candidates_for(root: LocationView, targets: Seq<Seq<char>>) -> Seq<
    LocationView,
>
    decreases targets.len(),
{
    if targets.len() == 0 {
        Seq::empty()
    } else {
        bundled_candidates_for(root, targets.drop_last()) + candidates_under(
            runtime_dir(root, targets.last()),
            bundled_subpaths(),
        )
    }
}

/// The interpreter candidates of the unified layout, in priority order.
pub open spec fn bundled_candidates(root: LocationView) -> Seq<LocationView> {
    bundled_candidates_for(root, target_triples())
}

/// The interpreter candidates of the older layout, in priority order.
pub open spec fn legacy_candidates(root: LocationView) -> Seq<LocationView> {
    candidates_under(root.child("python"@), legacy_subpaths())
}

/// The home of an interpreter: the directory that holds it, or the one
/// above where that directory is named `bin`.
pub open spec fn python_home_of(python_bin: LocationView) -> Option<LocationView> {
    match python_bin.parent() {
        None => None,
        Some(dir) => if dir.last_name() == Some("bin"@) {
            dir.parent()
        } else {
            Some(dir)
        },
    }
}

fn target_triple_table() -> (r: Vec<&'static str>)
    ensures
        r.deep_view() == target_triples(),
{
    let r = vec![
        "aarch64-apple-darwin",
        "x86_64-apple-darwin",
        "x86_64-pc-windows-msvc",
        "aarch64-unknown-linux-gnu",
        "x86_64-unknown-linux-gnu",
    ];
    assert(r.deep_view() =~= target_triples());
    r
}

fn bundled_subpath_table() -> (r: Vec<Vec<&'static str>>)
    ensures
        r.deep_view() == bundled_subpaths(),
{
    let a = vec!["bin", "python3"];
    let b = vec!["bin", "python"];
    let c = vec!["python.exe"];
    let d = vec!["python3.exe"];
    assert(a.deep_view() =~= seq!["bin"@, "python3"@]);
    assert(b.deep_view() =~= seq!["bin"@, "python"@]);
    assert(c.deep_view() =~= seq!["python.exe"@]);
    assert(d.deep_view() =~= seq!["python3.exe"@]);
    let r = vec![a, b, c, d];
    assert(r.deep_view() =~= bundled_subpaths());
    r
}

fn legacy_subpath_table() -> (r: Vec<Vec<&'static str>>)
    ensures
        r.deep_view() == legacy_subpaths(),
{
    let a = vec!["python.exe"];
    let b = vec!["python"];
    let c = vec!["python3"];
    let d = vec!["bin", "python3"];
    let e = vec!["bin", "python"];
    assert(a.deep_view() =~= seq!["python.exe"@]);
    assert(b.deep_view() =~= seq!["python"@]);
    assert(c.deep_view() =~= seq!["python3"@]);
    assert(d.deep_view() =~= seq!["bin"@, "python3"@]);
    assert(e.deep_view() =~= seq!["bin"@, "python"@]);
    let r = vec![a, b, c, d, e];
    assert(r.deep_view() =~= legacy_subpaths());
    r
}

fn list_under(dir: &Location, subpaths: &Vec<Vec<&'static str>>) -> (r: Vec<Location>)
    ensures
        location_views(r@) == candidates_under(dir@, subpaths.deep_view()),
{
    let mut out: Vec<Location> = Vec::new();
    let mut j: usize = 0;
    while j < subpaths.len()
        invariant
            j <= subpaths.len(),
            out.len() == j,
            forall|k: int| 0 <= k < j ==> out[k]@ == dir@.descend(subpaths.deep_view()[k]),
        decreases subpaths.len() - j,
    {
        let candidate = dir.descend(&subpaths[j]);
        assert(subpaths.deep_view()[j as int] == subpaths[j as int].deep_view());
        out.push(candidate);
        j = j + 1;
    }
    assert(location_views(out@) =~= candidates_under(dir@, subpaths.deep_view()));
    out
}

/// The interpreter candidates below the root of the unified layout: for
/// each target platform a directory `python-<target>`, and below it
/// `bin/python3`, `bin/python`, `python.exe` and `python3.exe`.
pub fn embedded_python_from_binaries(binaries_root: &Location) -> (r: Vec<Location>)
    ensures
        location_views(r@) == bundled_candidates(binaries_root@),
{
    let targets = target_triple_table();
    let subpaths = bundled_subpath_table();
    let mut out: Vec<Location> = Vec::new();
    let mut i: usize = 0;
    assert(targets.deep_view().take(0) =~= Seq::<Seq<char>>::empty());
    assert(location_views(out@) =~= Seq::<LocationView>::empty());
    while i < targets.len()
        invariant
            i <= targets.len(),
            subpaths.deep_view() == bundled_subpaths(),
            location_views(out@) == bundled_candidates_for(
                binaries_root@,
                targets.deep_view().take(i as int),
            ),
        decreases targets.len() - i,
    {
        let ghost upto = targets.deep_view().take(i + 1);
        assert(upto.drop_last() =~= targets.deep_view().take(i as int));
        assert(upto.last() == targets[i as int]@);
        let name = "python-".to_owned().concat(targets[i]);
        let dir = binaries_root.child(name.as_str());
        let mut group = list_under(&dir, &subpaths);
        let ghost before = location_views(out@);
        let ghost added = location_views(group@);
        out.append(&mut group);
        assert(location_views(out@) =~= before + added);
        i = i + 1;
    }
    assert(targets.deep_view().take(targets.len() as int) =~= targets.deep_view());
    out
}

/// The interpreter candidates below the root of the older layout: in its
/// directory `python`, `python.exe`, `python`, `python3`, `bin/python3`
/// and `bin/python`.
pub fn embedded_python_candidates(bin_root: &Location) -> (r: Vec<Location>)
    ensures
        location_views(r@) == legacy_candidates(bin_root@),
{
    let dir = bin_root.child("python");
    list_under(&dir, &legacy_subpath_table())
}

/// The home of an interpreter: the directory that holds it, or the one
/// above where that directory is named `bin`. `None` for a location that
/// has no directory above it.
pub fn derive_python_home(python_bin: &Location) -> (r: Option<Location>)
    ensures
        opt_location(r) == python_home_of(python_bin@),
{
    match python_bin.parent() {
        None => None,
        Some(dir) => if dir.is_named("bin") {
            dir.parent()
        } else {
            Some(dir)
        },
    }
}

/// The worker's entry point, relative to a root.
pub(crate) fn backend_name_table() -> (r: Vec<&'static str>)
    ensures
        r.deep_view() == backend_names(),
{
    let r = vec!["backend", "main.py"];
    assert(r.deep_view() =~= backend_names());
    r
}

/// The candidates of the unified layout below `root`, where it is known.
pub open spec fn bundled_below(root: Option<LocationView>) -> Seq<LocationView> {
    match root {
        Some(r) => bundled_candidates(r),
        None => Seq::empty(),
    }
}

/// The candidates of the older layout below `root`, where it is known.
pub open spec fn legacy_below(root: Option<LocationView>) -> Seq<LocationView> {
    match root {
        Some(r) => legacy_candidates(r),
        None => Seq::empty(),
    }
}

/// The candidates of the unified layout below `root`, where it is known.
pub(crate) fn bundled_list(root: &Option<Location>) -> (r: Vec<Location>)
    ensures
        location_views(r@) == bundled_below(opt_location(*root)),
{
    match root {
        Some(dir) => embedded_python_from_binaries(dir),
        None => {
            let out: Vec<Location> = Vec::new();
            assert(location_views(out@) =~= Seq::<LocationView>::empty());
            out
        },
    }
}

/// The candidates of the older layout below `root`, where it is known.
pub(crate) fn legacy_list(root: &Option<Location>) -> (r: Vec<Location>)
    ensures
        location_views(r@) == legacy_below(opt_location(*root)),
{
    match root {
        Some(dir) => embedded_python_candidates(dir),
        None => {
            let out: Vec<Location> = Vec::new();
            assert(location_views(out@) =~= Seq::<LocationView>::empty());
            out
        },
    }
}

} // verus!
