use python_backend::paths::Location;
use python_backend::candidates::{
    derive_python_home, embedded_python_candidates, embedded_python_from_binaries,
};
use python_backend::probes::probe_list;
use python_backend::resolver::{
    backend_candidates, resolve_python, PythonResolution, ResolutionError, SearchRoots,
};
use python_backend::selection::first_existing;
use python_backend::tools::{
    ffmpeg_binary_name, resolve_ffmpeg, Architecture, OperatingSystem, Platform,
};

fn at(path: &str) -> Location {
    let absolute = path.starts_with('/');
    let names = path.split('/').filter(|s| !s.is_empty()).map(|s| s.to_string()).collect();
    Location { anchor: if absolute { Some("/".to_string()) } else { None }, names }
}

fn all(paths: &[&str]) -> Vec<Location> {
    paths.iter().map(|p| at(p)).collect()
}

fn roots() -> SearchRoots {
    SearchRoots {
        resource_dir: Some(at("/app/res")),
        working_dir: Some(at("/work/proj/src-tauri")),
    }
}

fn linux() -> Platform {
    Platform { os: OperatingSystem::Linux, arch: Architecture::X86_64 }
}

const BACKEND: &str = "/app/res/backend/main.py";

#[test]
fn unified_layout_candidates() {
    let found = embedded_python_from_binaries(&at("/app/res/binaries"));
    let expected = all(&[
        "/app/res/binaries/python-aarch64-apple-darwin/bin/python3",
        "/app/res/binaries/python-aarch64-apple-darwin/bin/python",
        "/app/res/binaries/python-aarch64-apple-darwin/python.exe",
        "/app/res/binaries/python-aarch64-apple-darwin/python3.exe",
        "/app/res/binaries/python-x86_64-apple-darwin/bin/python3",
        "/app/res/binaries/python-x86_64-apple-darwin/bin/python",
        "/app/res/binaries/python-x86_64-apple-darwin/python.exe",
        "/app/res/binaries/python-x86_64-apple-darwin/python3.exe",
        "/app/res/binaries/python-x86_64-pc-windows-msvc/bin/python3",
        "/app/res/binaries/python-x86_64-pc-windows-msvc/bin/python",
        "/app/res/binaries/python-x86_64-pc-windows-msvc/python.exe",
        "/app/res/binaries/python-x86_64-pc-windows-msvc/python3.exe",
        "/app/res/binaries/python-aarch64-unknown-linux-gnu/bin/python3",
        "/app/res/binaries/python-aarch64-unknown-linux-gnu/bin/python",
        "/app/res/binaries/python-aarch64-unknown-linux-gnu/python.exe",
        "/app/res/binaries/python-aarch64-unknown-linux-gnu/python3.exe",
        "/app/res/binaries/python-x86_64-unknown-linux-gnu/bin/python3",
        "/app/res/binaries/python-x86_64-unknown-linux-gnu/bin/python",
        "/app/res/binaries/python-x86_64-unknown-linux-gnu/python.exe",
        "/app/res/binaries/python-x86_64-unknown-linux-gnu/python3.exe",
    ]);
    assert_eq!(found.len(), 20);
    assert_eq!(found, expected);
}

#[test]
fn unified_layout_candidates_below_a_relative_root() {
    let found = embedded_python_from_binaries(&at("binaries"));
    assert_eq!(found.len(), 20);
    assert_eq!(found[0], at("binaries/python-aarch64-apple-darwin/bin/python3"));
    assert_eq!(found[19], at("binaries/python-x86_64-unknown-linux-gnu/python3.exe"));
}

#[test]
fn older_layout_candidates() {
    let found = embedded_python_candidates(&at("/app/res/bin"));
    let expected = all(&[
        "/app/res/bin/python/python.exe",
        "/app/res/bin/python/python",
        "/app/res/bin/python/python3",
        "/app/res/bin/python/bin/python3",
        "/app/res/bin/python/bin/python",
    ]);
    assert_eq!(found, expected);
}

#[test]
fn home_is_above_a_bin_directory() {
    assert_eq!(
        derive_python_home(&at("/app/res/binaries/python-x86_64-unknown-linux-gnu/bin/python3")),
        Some(at("/app/res/binaries/python-x86_64-unknown-linux-gnu"))
    );
    assert_eq!(derive_python_home(&at("/bin/python3")), Some(at("/")));
    assert_eq!(derive_python_home(&at("bin/python3")), Some(at("")));
}

#[test]
fn home_is_the_directory_that_is_not_named_bin() {
    assert_eq!(
        derive_python_home(&at("/app/res/bin/python/python.exe")),
        Some(at("/app/res/bin/python"))
    );
    assert_eq!(derive_python_home(&at("/opt/Bin/python")), Some(at("/opt/Bin")));
    assert_eq!(derive_python_home(&at("python3")), Some(at("")));
    assert_eq!(derive_python_home(&at("/python3")), Some(at("/")));
}

#[test]
fn home_of_a_root_or_of_nothing_is_none() {
    assert_eq!(derive_python_home(&at("/")), None);
    assert_eq!(derive_python_home(&at("")), None);
}

#[test]
fn home_above_bin_directly_below_a_root_has_no_parent() {
    assert_eq!(derive_python_home(&at("bin")), Some(at("")));
    assert_eq!(derive_python_home(&at("/bin")), Some(at("/")));
}

#[test]
fn first_existing_takes_the_first_in_priority_order() {
    let candidates = all(&["/a", "/b", "/c"]);
    assert_eq!(first_existing(&candidates, &all(&["/a", "/b", "/c"])), Some(0));
    assert_eq!(first_existing(&candidates, &all(&["/c", "/b"])), Some(1));
    assert_eq!(first_existing(&candidates, &all(&["/b", "/c"])), Some(1));
    assert_eq!(first_existing(&candidates, &all(&["/c"])), Some(2));
    assert_eq!(first_existing(&candidates, &all(&["/c", "/a"])), Some(0));
}

#[test]
fn first_existing_without_a_hit() {
    let candidates = all(&["/a", "/b", "/c"]);
    assert_eq!(first_existing(&candidates, &all(&[])), None);
    assert_eq!(first_existing(&candidates, &all(&["/d", "a", "/a/b"])), None);
    assert_eq!(first_existing(&all(&[]), &all(&["/a"])), None);
}

#[test]
fn first_existing_with_a_candidate_listed_twice() {
    let candidates = all(&["/x", "/a", "/a"]);
    assert_eq!(first_existing(&candidates, &all(&["/a"])), Some(1));
}

#[test]
fn backend_candidates_in_priority_order() {
    assert_eq!(
        backend_candidates(&roots()),
        all(&[
            "/app/res/backend/main.py",
            "/work/proj/src-tauri/backend/main.py",
            "/work/proj/backend/main.py",
            "backend/main.py",
        ])
    );
}

#[test]
fn backend_candidates_without_roots() {
    let none = SearchRoots { resource_dir: None, working_dir: None };
    assert_eq!(backend_candidates(&none), all(&["backend/main.py"]));
    let top = SearchRoots { resource_dir: None, working_dir: Some(at("/")) };
    assert_eq!(backend_candidates(&top), all(&["/backend/main.py", "backend/main.py"]));
}

#[test]
fn worker_not_found_lists_every_checked_path() {
    let existing = all(&["/app/res/binaries", "/app/res/bin", "/somewhere/backend/main.py"]);
    for debug_build in [false, true] {
        let error = resolve_python(&roots(), &existing, debug_build).unwrap_err();
        assert_eq!(
            error,
            ResolutionError::WorkerNotFound {
                checked: all(&[
                    "/app/res/backend/main.py",
                    "/work/proj/src-tauri/backend/main.py",
                    "/work/proj/backend/main.py",
                    "backend/main.py",
                ]),
            }
        );
        assert_eq!(
            error.message(),
            "Unable to locate backend/main.py. Checked: /app/res/backend/main.py, \
             /work/proj/src-tauri/backend/main.py, /work/proj/backend/main.py, backend/main.py"
        );
    }
}

#[test]
fn worker_not_found_comes_before_runtime_missing() {
    let error = resolve_python(&roots(), &Vec::new(), false).unwrap_err();
    assert!(matches!(error, ResolutionError::WorkerNotFound { .. }));
}

#[test]
fn worker_is_the_first_candidate_that_exists() {
    let existing = all(&["backend/main.py", "/work/proj/backend/main.py"]);
    let resolution = resolve_python(&roots(), &existing, true).unwrap();
    assert_eq!(resolution.backend_path, at("/work/proj/backend/main.py"));
    let existing = all(&["backend/main.py", "/work/proj/backend/main.py", BACKEND]);
    let resolution = resolve_python(&roots(), &existing, true).unwrap();
    assert_eq!(resolution.backend_path, at(BACKEND));
    let existing = all(&["backend/main.py"]);
    let resolution = resolve_python(&roots(), &existing, true).unwrap();
    assert_eq!(resolution.backend_path, at("backend/main.py"));
}

#[test]
fn bundled_runtime_of_the_unified_layout() {
    let existing = all(&[
        BACKEND,
        "/app/res/binaries",
        "/app/res/binaries/python-x86_64-unknown-linux-gnu/bin/python",
        "/app/res/binaries/python-x86_64-unknown-linux-gnu/bin/python3",
    ]);
    for debug_build in [false, true] {
        assert_eq!(
            resolve_python(&roots(), &existing, debug_build),
            Ok(PythonResolution {
                command: at("/app/res/binaries/python-x86_64-unknown-linux-gnu/bin/python3"),
                backend_path: at(BACKEND),
                bin_dir: Some(at("/app/res/binaries")),
                python_home: Some(at("/app/res/binaries/python-x86_64-unknown-linux-gnu")),
                uses_embedded: true,
            })
        );
    }
}

#[test]
fn bundled_runtime_of_the_older_layout() {
    let existing = all(&[BACKEND, "/app/res/src-tauri/bin", "/app/res/src-tauri/bin/python/python.exe"]);
    assert_eq!(
        resolve_python(&roots(), &existing, false),
        Ok(PythonResolution {
            command: at("/app/res/src-tauri/bin/python/python.exe"),
            backend_path: at(BACKEND),
            bin_dir: Some(at("/app/res/src-tauri/bin")),
            python_home: Some(at("/app/res/src-tauri/bin/python")),
            uses_embedded: true,
        })
    );
}

#[test]
fn unified_layout_comes_before_the_older_one() {
    let existing = all(&[
        BACKEND,
        "/app/res/bin",
        "/app/res/bin/python/python.exe",
        "/app/res/binaries",
        "/app/res/binaries/python-x86_64-pc-windows-msvc/python3.exe",
    ]);
    let resolution = resolve_python(&roots(), &existing, false).unwrap();
    assert_eq!(
        resolution.command,
        at("/app/res/binaries/python-x86_64-pc-windows-msvc/python3.exe")
    );
    assert_eq!(resolution.bin_dir, Some(at("/app/res/bin")));
    assert_eq!(
        resolution.python_home,
        Some(at("/app/res/binaries/python-x86_64-pc-windows-msvc"))
    );
}

#[test]
fn first_root_of_the_older_layout_wins() {
    let existing = all(&[
        BACKEND,
        "/app/res/bin",
        "/app/res/src-tauri/bin",
        "/app/res/src-tauri/bin/python/python3",
    ]);
    let error = resolve_python(&roots(), &existing, false).unwrap_err();
    assert_eq!(error, ResolutionError::RuntimeMissing);
}

#[test]
fn unified_candidates_need_their_root_to_exist() {
    let existing =
        all(&[BACKEND, "/app/res/binaries/python-x86_64-unknown-linux-gnu/bin/python3"]);
    assert_eq!(resolve_python(&roots(), &existing, false), Err(ResolutionError::RuntimeMissing));
}

#[test]
fn release_build_without_bundled_runtime_fails() {
    let error = resolve_python(&roots(), &all(&[BACKEND]), false).unwrap_err();
    assert_eq!(error, ResolutionError::RuntimeMissing);
    assert_eq!(
        error.message(),
        "Embedded Python runtime missing. Run scripts/download-binaries.sh to download it."
    );
}

#[test]
fn development_build_without_bundled_runtime_uses_the_system_command() {
    assert_eq!(
        resolve_python(&roots(), &all(&[BACKEND]), true),
        Ok(PythonResolution {
            command: at("python3"),
            backend_path: at(BACKEND),
            bin_dir: Some(at("/app/res/binaries")),
            python_home: None,
            uses_embedded: false,
        })
    );
}

#[test]
fn development_build_without_resources() {
    let bare = SearchRoots { resource_dir: None, working_dir: Some(at("/work")) };
    assert_eq!(
        resolve_python(&bare, &all(&["/work/backend/main.py"]), true),
        Ok(PythonResolution {
            command: at("python3"),
            backend_path: at("/work/backend/main.py"),
            bin_dir: None,
            python_home: None,
            uses_embedded: false,
        })
    );
}

#[test]
fn ffmpeg_name_for_each_platform() {
    let name = |os, arch| ffmpeg_binary_name(Platform { os, arch });
    for arch in [Architecture::Aarch64, Architecture::X86_64, Architecture::Other] {
        assert_eq!(name(OperatingSystem::Windows, arch), "ffmpeg-x86_64-pc-windows-msvc.exe");
        assert_eq!(name(OperatingSystem::Other, arch), "ffmpeg");
    }
    assert_eq!(name(OperatingSystem::MacOs, Architecture::Aarch64), "ffmpeg-aarch64-apple-darwin");
    assert_eq!(name(OperatingSystem::MacOs, Architecture::X86_64), "ffmpeg-x86_64-apple-darwin");
    assert_eq!(name(OperatingSystem::MacOs, Architecture::Other), "ffmpeg");
    assert_eq!(
        name(OperatingSystem::Linux, Architecture::Aarch64),
        "ffmpeg-aarch64-unknown-linux-gnu"
    );
    assert_eq!(
        name(OperatingSystem::Linux, Architecture::X86_64),
        "ffmpeg-x86_64-unknown-linux-gnu"
    );
    assert_eq!(name(OperatingSystem::Linux, Architecture::Other), "ffmpeg");
}

#[test]
fn ffmpeg_bundled_comes_first() {
    let bundled = "/app/res/binaries/ffmpeg-x86_64-unknown-linux-gnu";
    let checkout = "/work/proj/src-tauri/src-tauri/binaries/ffmpeg-x86_64-unknown-linux-gnu";
    for debug_build in [false, true] {
        assert_eq!(
            resolve_ffmpeg(&roots(), linux(), &all(&[checkout, bundled]), debug_build),
            Some(at(bundled))
        );
    }
}

#[test]
fn ffmpeg_of_the_checkout_in_a_development_build_only() {
    let checkout = "/work/proj/src-tauri/src-tauri/binaries/ffmpeg-x86_64-unknown-linux-gnu";
    assert_eq!(resolve_ffmpeg(&roots(), linux(), &all(&[checkout]), true), Some(at(checkout)));
    assert_eq!(resolve_ffmpeg(&roots(), linux(), &all(&[checkout]), false), None);
}

#[test]
fn ffmpeg_for_an_unknown_platform_is_not_found() {
    let unknown = Platform { os: OperatingSystem::Other, arch: Architecture::Other };
    let existing = all(&["/app/res/binaries/ffmpeg-x86_64-unknown-linux-gnu", "/app/res/binaries"]);
    assert_eq!(resolve_ffmpeg(&roots(), unknown, &existing, true), None);
    assert_eq!(resolve_ffmpeg(&roots(), unknown, &existing, false), None);
    let none = SearchRoots { resource_dir: None, working_dir: None };
    assert_eq!(resolve_ffmpeg(&none, linux(), &existing, true), None);
}

#[test]
fn probe_list_names_all_that_resolution_asks_about() {
    let probes = probe_list(&roots(), linux());
    assert_eq!(probes.len(), 4 + 1 + 2 + 20 + 5 + 5 + 2);
    assert_eq!(probes[..4].to_vec(), backend_candidates(&roots()));
    assert_eq!(probes[4], at("/app/res/binaries"));
    assert_eq!(probes[5], at("/app/res/bin"));
    assert_eq!(probes[6], at("/app/res/src-tauri/bin"));
    assert_eq!(probes[7..27].to_vec(), embedded_python_from_binaries(&at("/app/res/binaries")));
    assert_eq!(probes[27..32].to_vec(), embedded_python_candidates(&at("/app/res/bin")));
    assert_eq!(probes[32..37].to_vec(), embedded_python_candidates(&at("/app/res/src-tauri/bin")));
    assert_eq!(probes[37], at("/app/res/binaries/ffmpeg-x86_64-unknown-linux-gnu"));
    assert_eq!(
        probes[38],
        at("/work/proj/src-tauri/src-tauri/binaries/ffmpeg-x86_64-unknown-linux-gnu")
    );
}

#[test]
fn probe_list_without_roots() {
    let none = SearchRoots { resource_dir: None, working_dir: None };
    assert_eq!(probe_list(&none, linux()), all(&["backend/main.py"]));
}

#[test]
fn resolution_from_the_probed_locations_alone() {
    let on_disk = all(&[
        BACKEND,
        "/app/res/bin",
        "/app/res/bin/python/bin/python3",
        "/usr/bin/python3",
        "/app/res/unrelated",
    ]);
    let probed: Vec<Location> = probe_list(&roots(), linux())
        .into_iter()
        .filter(|p| on_disk.contains(p))
        .collect();
    assert_eq!(resolve_python(&roots(), &probed, false), resolve_python(&roots(), &on_disk, false));
    assert_eq!(
        resolve_python(&roots(), &probed, false).unwrap().python_home,
        Some(at("/app/res/bin/python"))
    );
}
