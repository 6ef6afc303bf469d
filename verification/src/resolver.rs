//! Finding the worker: its entry point, an interpreter to run it, and the
//! directory of bundled tools.
//!
//! Resolution is a function of the search roots and of the locations found
//! on disk. It never looks at the disk itself: the caller checks the
//! locations that `probe_list` names and hands back those that exist.

use crate::candidates::{
    backend_name_table, backend_names, bundled_candidates, derive_python_home,
    embedded_python_candidates, embedded_python_from_binaries, legacy_candidates, python_home_of,
};
use crate::paths::{
    above, below, descend_from, display_text, is_listed, join_names, joined, location_views,
    opt_location, opt_seq, push_known, Location, LocationView,
};
use crate::selection::{first_found, lemma_selection_follows_priority, pick};
use crate::text::prefixed;
use vstd::prelude::*;

verus! {

/// The directories a search starts from: where the application keeps its
/// bundled resources, and the working directory. Either may be unknown.
#[derive(Debug, Clone, PartialEq, Eq)]
pub struct SearchRoots {
    pub resource_dir: Option<Location>,
    pub working_dir: Option<Location>,
}

pub struct SearchRootsView {
    pub resource_dir: Option<LocationView>,
    pub working_dir: Option<LocationView>,
}

impl View for SearchRoots {
    type V = SearchRootsView;

    open spec fn view(&self) -> SearchRootsView {
        SearchRootsView {
            resource_dir: opt_location(self.resource_dir),
            working_dir: opt_location(self.working_dir),
        }
    }
}

/// What a successful resolution yields.
#[derive(Debug, Clone, PartialEq, Eq)]
pub struct PythonResolution {
    /// The interpreter: a bundled one, or the bare name of a system command.
    pub command: Location,
    /// The worker's entry point.
    pub backend_path: Location,
    /// The directory of bundled tools, where the application has one.
    pub bin_dir: Option<Location>,
    /// The home of a bundled interpreter.
    pub python_home: Option<Location>,
    /// Whether the interpreter is a bundled one.
    pub uses_embedded: bool,
}

pub struct PythonResolutionView {
    pub command: LocationView,
    pub backend_path: LocationView,
    pub bin_dir: Option<LocationView>,
    pub python_home: Option<LocationView>,
    pub uses_embedded: bool,
}

impl View for PythonResolution {
    type V = PythonResolutionView;

    open spec fn view(&self) -> PythonResolutionView {
        PythonResolutionView {
            command: self.command@,
            backend_path: self.backend_path@,
            bin_dir: opt_location(self.bin_dir),
            python_home: opt_location(self.python_home),
            uses_embedded: self.uses_embedded,
        }
    }
}

/// Why a resolution failed.
#[derive(Debug, Clone, PartialEq, Eq)]
pub enum ResolutionError {
    /// None of the places where the worker's entry point may lie holds it.
    /// `checked` lists them, in the order they were tried.
    WorkerNotFound { checked: Vec<Location> },
    /// No bundled interpreter was found, and this build may not fall back on
    /// a system one.
    RuntimeMissing,
}

pub enum ResolutionErrorView {
    WorkerNotFound { checked: Seq<LocationView> },
    RuntimeMissing,
}

impl View for ResolutionError {
    type V = ResolutionErrorView;

    open spec fn view(&self) -> ResolutionErrorView {
        match *self {
            ResolutionError::WorkerNotFound { checked } => ResolutionErrorView::WorkerNotFound {
                checked: location_views(checked@),
            },
            ResolutionError::RuntimeMissing => ResolutionErrorView::RuntimeMissing,
        }
    }
}

/// Where the worker's entry point may lie, in priority order: among the
/// bundled resources, below the working directory, below the directory
/// above it, and as a bare relative path.
pub open spec fn backend_candidate_views(roots: SearchRootsView) -> Seq<LocationView> {
    opt_seq(below(roots.resource_dir, backend_names())) + opt_seq(
        below(roots.working_dir, backend_names()),
    ) + opt_seq(below(above(roots.working_dir), backend_names())) + seq![
        LocationView::relative(backend_names()),
    ]
}

/// The root of the unified layout of bundled tools.
pub open spec fn binaries_root_of(roots: SearchRootsView) -> Option<LocationView> {
    below(roots.resource_dir, seq!["binaries"@])
}

/// The first place where the root of the older layout may lie.
pub open spec fn packaged_bin_root(roots: SearchRootsView) -> Option<LocationView> {
    below(roots.resource_dir, seq!["bin"@])
}

/// The second place where the root of the older layout may lie.
pub open spec fn source_bin_root(roots: SearchRootsView) -> Option<LocationView> {
    below(roots.resource_dir, seq!["src-tauri"@, "bin"@])
}

/// Where the root of the older layout may lie, in priority order.
pub open spec fn bin_root_candidates(roots: SearchRootsView) -> Seq<LocationView> {
    opt_seq(packaged_bin_root(roots)) + opt_seq(source_bin_root(roots))
}

/// The root of the older layout: the first of its candidates that exists.
pub open spec fn bin_root_of(roots: SearchRootsView, existing: Seq<LocationView>) -> Option<
    LocationView,
> {
    first_found(bin_root_candidates(roots), existing)
}

/// The bundled interpreters to try, in priority order: those of the unified
/// layout, where its root exists, before those of the older layout.
pub open spec fn python_candidate_views(
    roots: SearchRootsView,
    existing: Seq<LocationView>,
) -> Seq<LocationView> {
    (match binaries_root_of(roots) {
        Some(root) => if existing.contains(root) {
            bundled_candidates(root)
        } else {
            Seq::empty()
        },
        None => Seq::empty(),
    }) + (match bin_root_of(roots, existing) {
        Some(root) => legacy_candidates(root),
        None => Seq::empty(),
    })
}

/// The directory of bundled tools: the root of the older layout where it
/// exists, else the root of the unified layout.
pub open spec fn bin_dir_of(roots: SearchRootsView, existing: Seq<LocationView>) -> Option<
    LocationView,
> {
    match bin_root_of(roots, existing) {
        Some(root) => Some(root),
        None => binaries_root_of(roots),
    }
}

/// The bare command that stands for a system interpreter.
pub open spec fn system_python() -> LocationView {
    LocationView::relative(seq!["python3"@])
}

/// What resolution yields for the given roots and existing locations.
///
/// The entry point is the first of its candidates that exists; without one
/// resolution fails with `WorkerNotFound`, which lists the candidates. The
/// interpreter is the first bundled candidate that exists. Without one, a
/// development build falls back on the system command and a release build
/// fails with `RuntimeMissing`.
pub open spec fn resolution_of(
    roots: SearchRootsView,
    existing: Seq<LocationView>,
    debug_build: bool,
) -> Result<PythonResolutionView, ResolutionErrorView> {
    match first_found(backend_candidate_views(roots), existing) {
        None => Err(
            ResolutionErrorView::WorkerNotFound { checked: backend_candidate_views(roots) },
        ),
        Some(backend_path) => match first_found(python_candidate_views(roots, existing), existing) {
            Some(command) => Ok(
                PythonResolutionView {
                    command,
                    backend_path,
                    bin_dir: bin_dir_of(roots, existing),
                    python_home: python_home_of(command),
                    uses_embedded: true,
                },
            ),
            None => if debug_build {
                Ok(
                    PythonResolutionView {
                        command: system_python(),
                        backend_path,
                        bin_dir: bin_dir_of(roots, existing),
                        python_home: None,
                        uses_embedded: false,
                    },
                )
            } else {
                Err(ResolutionErrorView::RuntimeMissing)
            },
        },
    }
}

/// The view of what resolution returned.
pub open spec fn resolution_view(result: Result<PythonResolution, ResolutionError>) -> Result<
    PythonResolutionView,
    ResolutionErrorView,
> {
    match result {
        Ok(r) => Ok(r@),
        Err(e) => Err(e@),
    }
}

/// Where the worker's entry point may lie, in priority order.
pub fn backend_candidates(roots: &SearchRoots) -> (r: Vec<Location>)
    ensures
        location_views(r@) == backend_candidate_views(roots@),
{
    let names = backend_name_table();
    let mut out: Vec<Location> = Vec::new();
    assert(location_views(out@) =~= Seq::<LocationView>::empty());
    push_known(&mut out, descend_from(&roots.resource_dir, &names));
    push_known(&mut out, descend_from(&roots.working_dir, &names));
    let up = match &roots.working_dir {
        Some(dir) => dir.parent(),
        None => None,
    };
    push_known(&mut out, descend_from(&up, &names));
    let bare = Location { anchor: None, names: Vec::new() }.descend(&names);
    assert(bare@ == LocationView::relative(backend_names())) by {
        assert(Seq::<Seq<char>>::empty() + backend_names() =~= backend_names());
    }
    push_known(&mut out, Some(bare));
    assert(location_views(out@) =~= backend_candidate_views(roots@));
    out
}

/// The root of the unified layout of bundled tools.
pub(crate) fn binaries_root(roots: &SearchRoots) -> (r: Option<Location>)
    ensures
        opt_location(r) == binaries_root_of(roots@),
{
    let names = vec!["binaries"];
    assert(names.deep_view() =~= seq!["binaries"@]);
    descend_from(&roots.resource_dir, &names)
}

/// The first place where the root of the older layout may lie.
pub(crate) fn packaged_bin(roots: &SearchRoots) -> (r: Option<Location>)
    ensures
        opt_location(r) == packaged_bin_root(roots@),
{
    let names = vec!["bin"];
    assert(names.deep_view() =~= seq!["bin"@]);
    descend_from(&roots.resource_dir, &names)
}

/// The second place where the root of the older layout may lie.
pub(crate) fn source_bin(roots: &SearchRoots) -> (r: Option<Location>)
    ensures
        opt_location(r) == source_bin_root(roots@),
{
    let names = vec!["src-tauri", "bin"];
    assert(names.deep_view() =~= seq!["src-tauri"@, "bin"@]);
    descend_from(&roots.resource_dir, &names)
}

/// Where the root of the older layout may lie, in priority order.
pub(crate) fn bin_roots(roots: &SearchRoots) -> (r: Vec<Location>)
    ensures
        location_views(r@) == bin_root_candidates(roots@),
{
    let mut out: Vec<Location> = Vec::new();
    assert(location_views(out@) =~= Seq::<LocationView>::empty());
    push_known(&mut out, packaged_bin(roots));
    push_known(&mut out, source_bin(roots));
    assert(location_views(out@) =~= bin_root_candidates(roots@));
    out
}

/// Finds the worker's entry point and an interpreter for it, given the
/// locations that exist on disk.
pub fn resolve_python(roots: &SearchRoots, existing: &Vec<Location>, debug_build: bool) -> (r:
    Result<PythonResolution, ResolutionError>)
    ensures
        resolution_view(r) == resolution_of(roots@, location_views(existing@), debug_build),
{
    let ghost found = location_views(existing@);
    let backend = backend_candidates(roots);
    let backend_path = match pick(&backend, existing) {
        Some(path) => path,
        None => {
            return Err(ResolutionError::WorkerNotFound { checked: backend });
        },
    };
    let unified_root = binaries_root(roots);
    let legacy_root = pick(&bin_roots(roots), existing);
    let mut candidates: Vec<Location> = match &unified_root {
        Some(root) => if is_listed(existing, root) {
            embedded_python_from_binaries(root)
        } else {
            Vec::new()
        },
        None => Vec::new(),
    };
    let ghost unified = location_views(candidates@);
    assert(unified =~= (match binaries_root_of(roots@) {
        Some(root) => if found.contains(root) {
            bundled_candidates(root)
        } else {
            Seq::empty()
        },
        None => Seq::empty(),
    }));
    let mut legacy: Vec<Location> = match &legacy_root {
        Some(root) => embedded_python_candidates(root),
        None => Vec::new(),
    };
    let ghost older = location_views(legacy@);
    assert(older =~= (match bin_root_of(roots@, found) {
        Some(root) => legacy_candidates(root),
        None => Seq::empty(),
    }));
    candidates.append(&mut legacy);
    assert(location_views(candidates@) =~= unified + older);
    let bin_dir = match legacy_root {
        Some(root) => Some(root),
        None => unified_root,
    };
    match pick(&candidates, existing) {
        Some(command) => {
            let python_home = derive_python_home(&command);
            Ok(
                PythonResolution {
                    command,
                    backend_path,
                    bin_dir,
                    python_home,
                    uses_embedded: true,
                },
            )
        },
        None => if debug_build {
            let names = vec!["python3".to_owned()];
            assert(names.deep_view() =~= seq!["python3"@]);
            Ok(
                PythonResolution {
                    command: Location::relative(names),
                    backend_path,
                    bin_dir,
                    python_home: None,
                    uses_embedded: false,
                },
            )
        } else {
            Err(ResolutionError::RuntimeMissing)
        },
    }
}

/// The locations of a list as text for diagnostics.
pub open spec fn display_texts(locations: Seq<LocationView>) -> Seq<Seq<char>> {
    Seq::new(locations.len(), |i: int| display_text(locations[i]))
}

/// The text of a resolution failure. A missing worker names every place
/// that was checked; a missing runtime names the step that provides it.
pub open spec fn resolution_message(error: ResolutionErrorView) -> Seq<char> {
    match error {
        ResolutionErrorView::WorkerNotFound { checked } =>
            "Unable to locate backend/main.py. Checked: "@ + joined(display_texts(checked), ", "@),
        ResolutionErrorView::RuntimeMissing =>
            "Embedded Python runtime missing. Run scripts/download-binaries.sh to download it."@,
    }
}

impl ResolutionError {
    /// The failure as one line of text.
    pub fn message(&self) -> (r: String)
        ensures
            r@ == resolution_message(self@),
    {
        match self {
            ResolutionError::WorkerNotFound { checked } => {
                let mut shown: Vec<String> = Vec::new();
                let mut i: usize = 0;
                while i < checked.len()
                    invariant
                        i <= checked.len(),
                        shown.len() == i,
                        forall|k: int| 0 <= k < i ==> shown[k]@ == display_text(checked[k]@),
                    decreases checked.len() - i,
                {
                    shown.push(checked[i].display());
                    i = i + 1;
                }
                assert(shown.deep_view() =~= display_texts(location_views(checked@)));
                prefixed(
                    "Unable to locate backend/main.py. Checked: ",
                    join_names(&shown, ", ").as_str(),
                )
            },
            ResolutionError::RuntimeMissing => {
                let text =
                    "Embedded Python runtime missing. Run scripts/download-binaries.sh to download it.";
                text.to_owned()
            },
        }
    }
}

/// What a successful resolution holds. The entry point is one of its
/// candidates and exists. A bundled interpreter exists too, and its home is
/// derived from its location; the system command stands in only in a
/// development build, and has no home.
pub proof fn lemma_resolution_holds_what_exists(
    roots: SearchRootsView,
    existing: Seq<LocationView>,
    debug_build: bool,
)
    ensures
        resolution_of(roots, existing, debug_build) matches Ok(found) ==> {
            &&& backend_candidate_views(roots).contains(found.backend_path)
            &&& existing.contains(found.backend_path)
            &&& found.uses_embedded ==> {
                &&& python_candidate_views(roots, existing).contains(found.command)
                &&& existing.contains(found.command)
                &&& found.python_home == python_home_of(found.command)
            }
            &&& !found.uses_embedded ==> {
                &&& debug_build
                &&& found.command == system_python()
                &&& found.python_home is None
            }
        },
{
    lemma_selection_follows_priority(backend_candidate_views(roots), existing);
    lemma_selection_follows_priority(python_candidate_views(roots, existing), existing);
}

/// Resolution fails with `WorkerNotFound` exactly when none of the places
/// where the entry point may lie exists, and the failure lists every one of
/// them.
pub proof fn lemma_worker_not_found_exactly(
    roots: SearchRootsView,
    existing: Seq<LocationView>,
    debug_build: bool,
)
    ensures
        (forall|i: int|
            0 <= i < backend_candidate_views(roots).len() ==> !existing.contains(
                #[trigger] backend_candidate_views(roots)[i],
            )) <==> resolution_of(roots, existing, debug_build) == Err::<
            PythonResolutionView,
            ResolutionErrorView,
        >(ResolutionErrorView::WorkerNotFound { checked: backend_candidate_views(roots) }),
        resolution_of(roots, existing, debug_build) matches Err(
            ResolutionErrorView::WorkerNotFound { checked },
        ) ==> checked == backend_candidate_views(roots),
{
    lemma_selection_follows_priority(backend_candidate_views(roots), existing);
}

/// Without a bundled interpreter, and with the entry point in place, a
/// release build fails with `RuntimeMissing` and a development build
/// succeeds with the system command; with a bundled interpreter both
/// succeed alike.
pub proof fn lemma_runtime_fallback(roots: SearchRootsView, existing: Seq<LocationView>)
    requires
        exists|i: int|
            0 <= i < backend_candidate_views(roots).len() && existing.contains(
                #[trigger] backend_candidate_views(roots)[i],
            ),
    ensures
        (forall|i: int|
            0 <= i < python_candidate_views(roots, existing).len() ==> !existing.contains(
                #[trigger] python_candidate_views(roots, existing)[i],
            )) ==> {
            &&& resolution_of(roots, existing, false) == Err::<
                PythonResolutionView,
                ResolutionErrorView,
            >(ResolutionErrorView::RuntimeMissing)
            &&& resolution_of(roots, existing, true) matches Ok(found)
            &&& found.command == system_python()
            &&& !found.uses_embedded
        },
        (exists|i: int|
            0 <= i < python_candidate_views(roots, existing).len() && existing.contains(
                #[trigger] python_candidate_views(roots, existing)[i],
            )) ==> {
            &&& resolution_of(roots, existing, false) is Ok
            &&& resolution_of(roots, existing, false) == resolution_of(roots, existing, true)
        },
{
    lemma_selection_follows_priority(backend_candidate_views(roots), existing);
    lemma_selection_follows_priority(python_candidate_views(roots, existing), existing);
}

} // verus!
