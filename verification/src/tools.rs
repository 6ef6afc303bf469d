//! The media tool handed to the worker: which file it is on each platform,
//! and where it is looked for.

use crate::paths::{below, descend_from, location_views, opt_location, Location, LocationView};
use crate::resolver::{SearchRoots, SearchRootsView};
use crate::selection::{if_found, keep_found};
use vstd::prelude::*;

verus! {

/// The operating systems a tool may have been built for.
#[derive(Debug, Clone, Copy, PartialEq, Eq)]
pub enum OperatingSystem {
    Windows,
    MacOs,
    Linux,
    Other,
}

/// The processor architectures a tool may have been built for.
#[derive(Debug, Clone, Copy, PartialEq, Eq)]
pub enum Architecture {
    Aarch64,
    X86_64,
    Other,
}

/// The platform the host runs on.
#[derive(Debug, Clone, Copy, PartialEq, Eq)]
pub struct Platform {
    pub os: OperatingSystem,
    pub arch: Architecture,
}

/// The file name of the bundled media tool for a platform. Each platform
/// has exactly one name; one that is not known gets the plain name, which
/// no bundle holds.
pub open spec fn ffmpeg_name(platform: Platform) -> Seq<char> {
    match platform.os {
        OperatingSystem::Windows => "ffmpeg-x86_64-pc-windows-msvc.exe"@,
        OperatingSystem::MacOs => match platform.arch {
            Architecture::Aarch64 => "ffmpeg-aarch64-apple-darwin"@,
            Architecture::X86_64 => "ffmpeg-x86_64-apple-darwin"@,
            Architecture::Other => "ffmpeg"@,
        },
        OperatingSystem::Linux => match platform.arch {
            Architecture::Aarch64 => "ffmpeg-aarch64-unknown-linux-gnu"@,
            Architecture::X86_64 => "ffmpeg-x86_64-unknown-linux-gnu"@,
            Architecture::Other => "ffmpeg"@,
        },
        OperatingSystem::Other => "ffmpeg"@,
    }
}

/// The file name of the bundled media tool for a platform.
pub fn ffmpeg_binary_name(platform: Platform) -> (r: &'static str)
    ensures
        r@ == ffmpeg_name(platform),
{
    match platform.os {
        OperatingSystem::Windows => "ffmpeg-x86_64-pc-windows-msvc.exe",
        OperatingSystem::MacOs => match platform.arch {
            Architecture::Aarch64 => "ffmpeg-aarch64-apple-darwin",
            Architecture::X86_64 => "ffmpeg-x86_64-apple-darwin",
            Architecture::Other => "ffmpeg",
        },
        OperatingSystem::Linux => match platform.arch {
            Architecture::Aarch64 => "ffmpeg-aarch64-unknown-linux-gnu",
            Architecture::X86_64 => "ffmpeg-x86_64-unknown-linux-gnu",
            Architecture::Other => "ffmpeg",
        },
        OperatingSystem::Other => "ffmpeg",
    }
}

/// Where the bundled media tool lies among the resources.
pub open spec fn bundled_ffmpeg(roots: SearchRootsView, platform: Platform) -> Option<
    LocationView,
> {
    below(roots.resource_dir, seq!["binaries"@, ffmpeg_name(platform)])
}

/// Where the media tool lies in a source checkout.
pub open spec fn checkout_ffmpeg(roots: SearchRootsView, platform: Platform) -> Option<
    LocationView,
> {
    below(roots.working_dir, seq!["src-tauri"@, "binaries"@, ffmpeg_name(platform)])
}

/// The media tool to hand to the worker: the bundled one where it exists;
/// else, in a development build, the one of the source checkout where that
/// exists; else none.
pub open spec fn ffmpeg_of(
    roots: SearchRootsView,
    platform: Platform,
    existing: Seq<LocationView>,
    debug_build: bool,
) -> Option<LocationView> {
    match if_found(bundled_ffmpeg(roots, platform), existing) {
        Some(tool) => Some(tool),
        None => if debug_build {
            if_found(checkout_ffmpeg(roots, platform), existing)
        } else {
            None
        },
    }
}

/// Where the bundled media tool lies among the resources.
pub(crate) fn bundled_tool(roots: &SearchRoots, platform: Platform) -> (r: Option<Location>)
    ensures
        opt_location(r) == bundled_ffmpeg(roots@, platform),
{
    let names = vec!["binaries", ffmpeg_binary_name(platform)];
    assert(names.deep_view() =~= seq!["binaries"@, ffmpeg_name(platform)]);
    descend_from(&roots.resource_dir, &names)
}

/// Where the media tool lies in a source checkout.
pub(crate) fn checkout_tool(roots: &SearchRoots, platform: Platform) -> (r: Option<Location>)
    ensures
        opt_location(r) == checkout_ffmpeg(roots@, platform),
{
    let names = vec!["src-tauri", "binaries", ffmpeg_binary_name(platform)];
    assert(names.deep_view() =~= seq!["src-tauri"@, "binaries"@, ffmpeg_name(platform)]);
    descend_from(&roots.working_dir, &names)
}

/// Finds the media tool to hand to the worker, given the locations that
/// exist on disk. A platform without a bundled tool gets `None`.
pub fn resolve_ffmpeg(
    roots: &SearchRoots,
    platform: Platform,
    existing: &Vec<Location>,
    debug_build: bool,
) -> (r: Option<Location>)
    ensures
        opt_location(r) == ffmpeg_of(roots@, platform, location_views(existing@), debug_build),
{
    match keep_found(bundled_tool(roots, platform), existing) {
        Some(tool) => Some(tool),
        None => if debug_build {
            keep_found(checkout_tool(roots, platform), existing)
        } else {
            None
        },
    }
}

} // verus!
