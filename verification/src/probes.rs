//! The locations to check on disk before resolving, and the proof that
//! they are all that resolution looks at.

use crate::candidates::{
    bundled_below, bundled_candidates, bundled_list, legacy_below, legacy_candidates, legacy_list,
};
use crate::paths::{extend, location_views, opt_seq, push_known, Location, LocationView};
use crate::resolver::{
    backend_candidate_views, backend_candidates, bin_root_candidates, bin_root_of, bin_roots,
    binaries_root, binaries_root_of, packaged_bin, packaged_bin_root, python_candidate_views,
    resolution_of, source_bin, source_bin_root, SearchRoots, SearchRootsView,
};
use crate::selection::{
    first_hit, lemma_selection_follows_priority, lemma_selection_reads_candidates_only,
};
use crate::tools::{
    bundled_ffmpeg, bundled_tool, checkout_ffmpeg, checkout_tool, ffmpeg_of, Platform,
};
use vstd::prelude::*;

verus! {

/// Every location that resolution may ask about.
pub open spec fn probe_views(roots: SearchRootsView, platform: Platform) -> Seq<LocationView> {
    backend_candidate_views(roots) + opt_seq(binaries_root_of(roots)) + bin_root_candidates(roots)
        + bundled_below(binaries_root_of(roots)) + legacy_below(packaged_bin_root(roots))
        + legacy_below(source_bin_root(roots)) + opt_seq(bundled_ffmpeg(roots, platform))
        + opt_seq(checkout_ffmpeg(roots, platform))
}

/// Lists every location that `resolve_python` and `resolve_ffmpeg` may ask
/// about, for the caller to check on disk.
pub fn probe_list(roots: &SearchRoots, platform: Platform) -> (r: Vec<Location>)
    ensures
        location_views(r@) == probe_views(roots@, platform),
{
    let unified_root = binaries_root(roots);
    let packaged = packaged_bin(roots);
    let source = source_bin(roots);
    let mut out = backend_candidates(roots);
    let unified = bundled_list(&unified_root);
    let older_packaged = legacy_list(&packaged);
    let older_source = legacy_list(&source);
    push_known(&mut out, unified_root);
    extend(&mut out, bin_roots(roots));
    extend(&mut out, unified);
    extend(&mut out, older_packaged);
    extend(&mut out, older_source);
    push_known(&mut out, bundled_tool(roots, platform));
    push_known(&mut out, checkout_tool(roots, platform));
    out
}

/// Whether two lists of existing locations agree on every probe.
pub open spec fn agree_on(
    a: Seq<LocationView>,
    b: Seq<LocationView>,
    probes: Seq<LocationView>,
) -> bool {
    forall|p: LocationView| #[trigger] probes.contains(p) ==> (a.contains(p) <==> b.contains(p))
}

proof fn lemma_in_left(x: Seq<LocationView>, y: Seq<LocationView>, e: LocationView)
    requires
        x.contains(e),
    ensures
        (x + y).contains(e),
{
    let i = choose|i: int| 0 <= i < x.len() && x[i] == e;
    assert((x + y)[i] == e);
}

proof fn lemma_in_right(x: Seq<LocationView>, y: Seq<LocationView>, e: LocationView)
    requires
        y.contains(e),
    ensures
        (x + y).contains(e),
{
    let i = choose|i: int| 0 <= i < y.len() && y[i] == e;
    assert((x + y)[x.len() + i] == e);
}

proof fn lemma_probes_cover(roots: SearchRootsView, platform: Platform, e: LocationView)
    ensures
        backend_candidate_views(roots).contains(e) ==> probe_views(roots, platform).contains(e),
        opt_seq(binaries_root_of(roots)).contains(e) ==> probe_views(roots, platform).contains(e),
        bin_root_candidates(roots).contains(e) ==> probe_views(roots, platform).contains(e),
        bundled_below(binaries_root_of(roots)).contains(e) ==> probe_views(
            roots,
            platform,
        ).contains(e),
        legacy_below(packaged_bin_root(roots)).contains(e) ==> probe_views(
            roots,
            platform,
        ).contains(e),
        legacy_below(source_bin_root(roots)).contains(e) ==> probe_views(roots, platform).contains(
            e,
        ),
        opt_seq(bundled_ffmpeg(roots, platform)).contains(e) ==> probe_views(
            roots,
            platform,
        ).contains(e),
        opt_seq(checkout_ffmpeg(roots, platform)).contains(e) ==> probe_views(
            roots,
            platform,
        ).contains(e),
{
    let backend = backend_candidate_views(roots);
    let unified_root = opt_seq(binaries_root_of(roots));
    let older_roots = bin_root_candidates(roots);
    let unified = bundled_below(binaries_root_of(roots));
    let packaged = legacy_below(packaged_bin_root(roots));
    let source = legacy_below(source_bin_root(roots));
    let tool = opt_seq(bundled_ffmpeg(roots, platform));
    let checkout = opt_seq(checkout_ffmpeg(roots, platform));
    let upto_unified_root = backend + unified_root;
    let upto_older_roots = upto_unified_root + older_roots;
    let upto_unified = upto_older_roots + unified;
    let upto_packaged = upto_unified + packaged;
    let upto_source = upto_packaged + source;
    let upto_tool = upto_source + tool;
    assert(probe_views(roots, platform) == upto_tool + checkout);
    if backend.contains(e) {
        lemma_in_left(backend, unified_root, e);
    }
    if unified_root.contains(e) {
        lemma_in_right(backend, unified_root, e);
    }
    if upto_unified_root.contains(e) {
        lemma_in_left(upto_unified_root, older_roots, e);
    }
    if older_roots.contains(e) {
        lemma_in_right(upto_unified_root, older_roots, e);
    }
    if upto_older_roots.contains(e) {
        lemma_in_left(upto_older_roots, unified, e);
    }
    if unified.contains(e) {
        lemma_in_right(upto_older_roots, unified, e);
    }
    if upto_unified.contains(e) {
        lemma_in_left(upto_unified, packaged, e);
    }
    if packaged.contains(e) {
        lemma_in_right(upto_unified, packaged, e);
    }
    if upto_packaged.contains(e) {
        lemma_in_left(upto_packaged, source, e);
    }
    if source.contains(e) {
        lemma_in_right(upto_packaged, source, e);
    }
    if upto_source.contains(e) {
        lemma_in_left(upto_source, tool, e);
    }
    if tool.contains(e) {
        lemma_in_right(upto_source, tool, e);
    }
    if upto_tool.contains(e) {
        lemma_in_left(upto_tool, checkout, e);
    }
    if checkout.contains(e) {
        lemma_in_right(upto_tool, checkout, e);
    }
}

/// The probe list is enough: resolution looks at nothing else. Two lists of
/// existing locations that agree on every probe give the same interpreter,
/// entry point and media tool, or the same failure.
pub proof fn lemma_probe_list_suffices(
    roots: SearchRootsView,
    platform: Platform,
    a: Seq<LocationView>,
    b: Seq<LocationView>,
    debug_build: bool,
)
    requires
        agree_on(a, b, probe_views(roots, platform)),
    ensures
        resolution_of(roots, a, debug_build) == resolution_of(roots, b, debug_build),
        ffmpeg_of(roots, platform, a, debug_build) == ffmpeg_of(roots, platform, b, debug_build),
{
    let probes = probe_views(roots, platform);
    assert forall|e: LocationView|
        backend_candidate_views(roots).contains(e) || opt_seq(binaries_root_of(roots)).contains(e)
            || bin_root_candidates(roots).contains(e) || bundled_below(
            binaries_root_of(roots),
        ).contains(e) || legacy_below(packaged_bin_root(roots)).contains(e) || legacy_below(
            source_bin_root(roots),
        ).contains(e) || opt_seq(bundled_ffmpeg(roots, platform)).contains(e) || opt_seq(
            checkout_ffmpeg(roots, platform),
        ).contains(e) implies (a.contains(e) <==> b.contains(e)) by {
        lemma_probes_cover(roots, platform, e);
        assert(probes.contains(e));
    }
    // the entry point
    let backend = backend_candidate_views(roots);
    assert forall|i: int| 0 <= i < backend.len() implies (a.contains(#[trigger] backend[i])
        <==> b.contains(backend[i])) by {
        assert(backend.contains(backend[i]));
    }
    lemma_selection_reads_candidates_only(backend, a, b);
    // the roots of the two layouts
    let bin_roots = bin_root_candidates(roots);
    assert forall|i: int| 0 <= i < bin_roots.len() implies (a.contains(#[trigger] bin_roots[i])
        <==> b.contains(bin_roots[i])) by {
        assert(bin_roots.contains(bin_roots[i]));
    }
    lemma_selection_reads_candidates_only(bin_roots, a, b);
    lemma_selection_follows_priority(bin_roots, a);
    match binaries_root_of(roots) {
        Some(root) => {
            assert(opt_seq(binaries_root_of(roots))[0] == root);
            assert(opt_seq(binaries_root_of(roots)).contains(root));
        },
        None => {},
    }
    assert(python_candidate_views(roots, a) == python_candidate_views(roots, b));
    // the interpreter
    let python = python_candidate_views(roots, a);
    let unified = match binaries_root_of(roots) {
        Some(root) => if a.contains(root) {
            bundled_candidates(root)
        } else {
            Seq::empty()
        },
        None => Seq::empty(),
    };
    let older = match bin_root_of(roots, a) {
        Some(root) => legacy_candidates(root),
        None => Seq::empty(),
    };
    assert(python == unified + older);
    assert forall|i: int| 0 <= i < python.len() implies (a.contains(#[trigger] python[i])
        <==> b.contains(python[i])) by {
        if i < unified.len() {
            assert(python[i] == unified[i]);
            assert(bundled_below(binaries_root_of(roots)).contains(unified[i]));
        } else {
            let j = i - unified.len();
            assert(python[i] == older[j]);
            let root = bin_root_of(roots, a)->Some_0;
            let k = first_hit(bin_roots, a)->Some_0;
            assert(root == bin_roots[k]);
            let packaged = opt_seq(packaged_bin_root(roots));
            if k < packaged.len() {
                assert(bin_roots[k] == packaged[k]);
                assert(packaged_bin_root(roots) == Some(root));
                assert(legacy_below(packaged_bin_root(roots)).contains(older[j]));
            } else {
                let source = opt_seq(source_bin_root(roots));
                assert(bin_roots[k] == source[k - packaged.len()]);
                assert(source_bin_root(roots) == Some(root));
                assert(legacy_below(source_bin_root(roots)).contains(older[j]));
            }
        }
    }
    lemma_selection_reads_candidates_only(python, a, b);
    // the media tool
    match bundled_ffmpeg(roots, platform) {
        Some(tool) => {
            assert(opt_seq(bundled_ffmpeg(roots, platform))[0] == tool);
            assert(opt_seq(bundled_ffmpeg(roots, platform)).contains(tool));
        },
        None => {},
    }
    match checkout_ffmpeg(roots, platform) {
        Some(tool) => {
            assert(opt_seq(checkout_ffmpeg(roots, platform))[0] == tool);
            assert(opt_seq(checkout_ffmpeg(roots, platform)).contains(tool));
        },
        None => {},
    }
}

} // verus!
