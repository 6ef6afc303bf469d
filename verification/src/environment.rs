//! The environment the worker is started with.
//!
//! The host's own environment is never touched: the builder returns the
//! settings to apply to the child, in the order to apply them, and a later
//! setting of a name replaces an earlier one.

use crate::paths::{is_listed, location_views, opt_location, Location, LocationView};
use crate::resolver::{PythonResolution, PythonResolutionView};
use vstd::prelude::*;

verus! {

/// The value of one variable of the child's environment.
#[derive(Debug, Clone, PartialEq, Eq)]
pub enum EnvValue {
    /// Plain text.
    Text(String),
    /// One location.
    Path(Location),
    /// A search path: locations to be joined as the platform joins them.
    /// Where they cannot be joined, a `required` setting fails the
    /// invocation and any other is left out.
    SearchPath { entries: Vec<Location>, required: bool },
}

pub enum EnvValueView {
    Text(Seq<char>),
    Path(LocationView),
    SearchPath { entries: Seq<LocationView>, required: bool },
}

impl View for EnvValue {
    type V = EnvValueView;

    open spec fn view(&self) -> EnvValueView {
        match *self {
            EnvValue::Text(text) => EnvValueView::Text(text@),
            EnvValue::Path(location) => EnvValueView::Path(location@),
            EnvValue::SearchPath { entries, required } => EnvValueView::SearchPath {
                entries: location_views(entries@),
                required,
            },
        }
    }
}

/// One variable of the child's environment.
#[derive(Debug, Clone, PartialEq, Eq)]
pub struct EnvSetting {
    pub name: String,
    pub value: EnvValue,
}

pub struct EnvSettingView {
    pub name: Seq<char>,
    pub value: EnvValueView,
}

impl View for EnvSetting {
    type V = EnvSettingView;

    open spec fn view(&self) -> EnvSettingView {
        EnvSettingView { name: self.name@, value: self.value@ }
    }
}

/// The views of a list of settings.
pub open spec fn setting_views(settings: Seq<EnvSetting>) -> Seq<EnvSettingView> {
    Seq::new(settings.len(), |i: int| settings[i]@)
}

/// The views of an optional list of locations.
pub open spec fn opt_locations(locations: Option<Vec<Location>>) -> Option<Seq<LocationView>> {
    match locations {
        Some(list) => Some(location_views(list@)),
        None => None,
    }
}

/// The search path with `dir` put first.
pub open spec fn with_first(dir: LocationView, entries: Seq<LocationView>) -> Seq<LocationView> {
    seq![dir] + entries
}

/// The setting that makes `dir` part of the child's search path. A host
/// path that holds `dir` already is left as it is, so nothing is set; one
/// that does not gets `dir` put first, its own entries following in their
/// order; without a host path `dir` alone is the path.
pub open spec fn search_path_settings(
    host_path: Option<Seq<LocationView>>,
    dir: LocationView,
    required: bool,
) -> Seq<EnvSettingView> {
    match host_path {
        Some(entries) => if entries.contains(dir) {
            Seq::empty()
        } else {
            seq![
                EnvSettingView {
                    name: "PATH"@,
                    value: EnvValueView::SearchPath { entries: with_first(dir, entries), required },
                },
            ]
        },
        None => seq![EnvSettingView { name: "PATH"@, value: EnvValueView::Path(dir) }],
    }
}

/// The settings for the directory of bundled tools.
pub open spec fn tool_dir_settings(
    bin_dir: Option<LocationView>,
    host_path: Option<Seq<LocationView>>,
) -> Seq<EnvSettingView> {
    match bin_dir {
        Some(dir) => seq![
            EnvSettingView { name: "SOUNDCONVERTER_BIN_DIR"@, value: EnvValueView::Path(dir) },
        ] + search_path_settings(host_path, dir, true),
        None => Seq::empty(),
    }
}

/// The settings for the media tool: its own location, and its directory
/// both on the search path and as the directory of bundled tools.
pub open spec fn ffmpeg_settings(
    ffmpeg: Option<LocationView>,
    host_path: Option<Seq<LocationView>>,
) -> Seq<EnvSettingView> {
    match ffmpeg {
        Some(tool) => seq![
            EnvSettingView { name: "FFMPEG_BINARY"@, value: EnvValueView::Path(tool) },
        ] + (match tool.parent() {
            Some(dir) => search_path_settings(host_path, dir, false) + seq![
                EnvSettingView { name: "SOUNDCONVERTER_BIN_DIR"@, value: EnvValueView::Path(dir) },
            ],
            None => Seq::empty(),
        }),
        None => Seq::empty(),
    }
}

/// The setting for the home of a bundled interpreter.
pub open spec fn home_settings(python_home: Option<LocationView>) -> Seq<EnvSettingView> {
    match python_home {
        Some(home) => seq![EnvSettingView { name: "PYTHONHOME"@, value: EnvValueView::Path(home) }],
        None => Seq::empty(),
    }
}

/// The two settings every worker gets: no output buffering, no bytecode
/// files.
pub open spec fn flag_settings() -> Seq<EnvSettingView> {
    seq![
        EnvSettingView { name: "PYTHONUNBUFFERED"@, value: EnvValueView::Text("1"@) },
        EnvSettingView { name: "PYTHONDONTWRITEBYTECODE"@, value: EnvValueView::Text("1"@) },
    ]
}

/// The settings of the child's environment, in the order to apply them.
pub open spec fn child_environment(
    resolution: PythonResolutionView,
    host_path: Option<Seq<LocationView>>,
    ffmpeg: Option<LocationView>,
) -> Seq<EnvSettingView> {
    tool_dir_settings(resolution.bin_dir, host_path) + ffmpeg_settings(ffmpeg, host_path)
        + home_settings(resolution.python_home) + flag_settings()
}

/// Puts `dir` first in a search path that does not hold it yet. Returns
/// `None` for a path that holds it already.
pub fn prepend_unique(entries: &Vec<Location>, dir: &Location) -> (r: Option<Vec<Location>>)
    ensures
        match r {
            Some(list) => !location_views(entries@).contains(dir@) && location_views(list@)
                == with_first(dir@, location_views(entries@)),
            None => location_views(entries@).contains(dir@),
        },
{
    if is_listed(entries, dir) {
        None
    } else {
        let mut list: Vec<Location> = Vec::new();
        list.push(dir.duplicate());
        let mut i: usize = 0;
        while i < entries.len()
            invariant
                i <= entries.len(),
                list.len() == i + 1,
                list[0]@ == dir@,
                forall|k: int| 0 <= k < i ==> list[k + 1]@ == entries[k]@,
            decreases entries.len() - i,
        {
            list.push(entries[i].duplicate());
            i = i + 1;
        }
        assert(location_views(list@) =~= with_first(dir@, location_views(entries@)));
        Some(list)
    }
}

fn set(list: &mut Vec<EnvSetting>, name: &str, value: EnvValue)
    ensures
        setting_views(final(list)@) == setting_views(old(list)@) + seq![
            EnvSettingView { name: name@, value: value@ },
        ],
{
    let ghost before = setting_views(list@);
    list.push(EnvSetting { name: name.to_owned(), value });
    assert(setting_views(list@) =~= before + seq![EnvSettingView { name: name@, value: value@ }]);
}

fn set_search_path(
    list: &mut Vec<EnvSetting>,
    host_path: &Option<Vec<Location>>,
    dir: &Location,
    required: bool,
)
    ensures
        setting_views(final(list)@) == setting_views(old(list)@) + search_path_settings(
            opt_locations(*host_path),
            dir@,
            required,
        ),
{
    let ghost before = setting_views(list@);
    match host_path {
        Some(entries) => match prepend_unique(entries, dir) {
            Some(path) => {
                set(list, "PATH", EnvValue::SearchPath { entries: path, required });
            },
            None => {
                assert(setting_views(list@) =~= before + Seq::<EnvSettingView>::empty());
            },
        },
        None => {
            set(list, "PATH", EnvValue::Path(dir.duplicate()));
        },
    }
}

/// Builds the child's environment from what was resolved, the host's search
/// path (`None` where the host has none) and the media tool found.
pub fn build_environment(
    resolution: &PythonResolution,
    host_path: &Option<Vec<Location>>,
    ffmpeg: &Option<Location>,
) -> (r: Vec<EnvSetting>)
    ensures
        setting_views(r@) == child_environment(
            resolution@,
            opt_locations(*host_path),
            opt_location(*ffmpeg),
        ),
{
    let ghost host = opt_locations(*host_path);
    let mut out: Vec<EnvSetting> = Vec::new();
    assert(setting_views(out@) =~= Seq::<EnvSettingView>::empty());
    match &resolution.bin_dir {
        Some(dir) => {
            set(&mut out, "SOUNDCONVERTER_BIN_DIR", EnvValue::Path(dir.duplicate()));
            set_search_path(&mut out, host_path, dir, true);
        },
        None => {},
    }
    assert(setting_views(out@) =~= tool_dir_settings(resolution@.bin_dir, host));
    let ghost first = setting_views(out@);
    match ffmpeg {
        Some(tool) => {
            set(&mut out, "FFMPEG_BINARY", EnvValue::Path(tool.duplicate()));
            match tool.parent() {
                Some(dir) => {
                    set_search_path(&mut out, host_path, &dir, false);
                    set(&mut out, "SOUNDCONVERTER_BIN_DIR", EnvValue::Path(dir));
                },
                None => {},
            }
        },
        None => {},
    }
    assert(setting_views(out@) =~= first + ffmpeg_settings(opt_location(*ffmpeg), host));
    let ghost second = setting_views(out@);
    match &resolution.python_home {
        Some(home) => {
            set(&mut out, "PYTHONHOME", EnvValue::Path(home.duplicate()));
        },
        None => {},
    }
    assert(setting_views(out@) =~= second + home_settings(resolution@.python_home));
    let ghost third = setting_views(out@);
    set(&mut out, "PYTHONUNBUFFERED", EnvValue::Text("1".to_owned()));
    set(&mut out, "PYTHONDONTWRITEBYTECODE", EnvValue::Text("1".to_owned()));
    assert(setting_views(out@) =~= third + flag_settings());
    out
}

/// The value a variable has once all settings are applied: that of the
/// last setting of its name, or `None` where no setting names it and the
/// child keeps what it inherits.
pub open spec fn effective(settings: Seq<EnvSettingView>, name: Seq<char>) -> Option<EnvValueView>
    decreases settings.len(),
{
    if settings.len() == 0 {
        None
    } else if settings.last().name == name {
        Some(settings.last().value)
    } else {
        effective(settings.drop_last(), name)
    }
}

/// The search path that putting `dir` on it calls for; `None` where the
/// host's path is to stay as it is.
pub open spec fn search_path_value(
    host_path: Option<Seq<LocationView>>,
    dir: Option<LocationView>,
    required: bool,
) -> Option<EnvValueView> {
    match dir {
        Some(d) => match host_path {
            Some(entries) => if entries.contains(d) {
                None
            } else {
                Some(EnvValueView::SearchPath { entries: with_first(d, entries), required })
            },
            None => Some(EnvValueView::Path(d)),
        },
        None => None,
    }
}

/// The directory of the media tool, where one was found and has a directory.
pub open spec fn ffmpeg_dir(ffmpeg: Option<LocationView>) -> Option<LocationView> {
    match ffmpeg {
        Some(tool) => tool.parent(),
        None => None,
    }
}

/// A location as the value of a variable, where it is known.
pub open spec fn path_value(location: Option<LocationView>) -> Option<EnvValueView> {
    match location {
        Some(l) => Some(EnvValueView::Path(l)),
        None => None,
    }
}

/// The first of two optional values that is there.
pub open spec fn or_else(first: Option<EnvValueView>, second: Option<EnvValueView>) -> Option<
    EnvValueView,
> {
    match first {
        Some(v) => Some(v),
        None => second,
    }
}

/// Settings applied later replace those applied earlier.
pub proof fn lemma_effective_of_two_runs(
    earlier: Seq<EnvSettingView>,
    later: Seq<EnvSettingView>,
    name: Seq<char>,
)
    ensures
        effective(earlier + later, name) == or_else(
            effective(later, name),
            effective(earlier, name),
        ),
    decreases later.len(),
{
    if later.len() == 0 {
        assert(earlier + later =~= earlier);
    } else {
        assert((earlier + later).drop_last() =~= earlier + later.drop_last());
        assert((earlier + later).last() == later.last());
        lemma_effective_of_two_runs(earlier, later.drop_last(), name);
    }
}

proof fn lemma_names_differ()
    ensures
        "PATH"@.len() == 4,
        "PYTHONHOME"@.len() == 10,
        "FFMPEG_BINARY"@.len() == 13,
        "PYTHONUNBUFFERED"@.len() == 16,
        "SOUNDCONVERTER_BIN_DIR"@.len() == 22,
        "PYTHONDONTWRITEBYTECODE"@.len() == 23,
{
    reveal_strlit("PATH");
    reveal_strlit("PYTHONHOME");
    reveal_strlit("FFMPEG_BINARY");
    reveal_strlit("PYTHONUNBUFFERED");
    reveal_strlit("SOUNDCONVERTER_BIN_DIR");
    reveal_strlit("PYTHONDONTWRITEBYTECODE");
}

proof fn lemma_effective_of_one(setting: EnvSettingView, name: Seq<char>)
    ensures
        effective(seq![setting], name) == if setting.name == name {
            Some(setting.value)
        } else {
            None
        },
{
    let one = seq![setting];
    assert(one.last() == setting);
    assert(one.drop_last() =~= Seq::<EnvSettingView>::empty());
    assert(effective(one.drop_last(), name) is None);
}

proof fn lemma_effective_search_path(
    host_path: Option<Seq<LocationView>>,
    dir: LocationView,
    required: bool,
    name: Seq<char>,
)
    ensures
        effective(search_path_settings(host_path, dir, required), name) == if name == "PATH"@ {
            search_path_value(host_path, Some(dir), required)
        } else {
            None
        },
{
    let settings = search_path_settings(host_path, dir, required);
    if settings.len() > 0 {
        lemma_effective_of_one(settings[0], name);
        assert(settings =~= seq![settings[0]]);
    }
}

proof fn lemma_effective_tool_dir(
    bin_dir: Option<LocationView>,
    host_path: Option<Seq<LocationView>>,
    name: Seq<char>,
)
    ensures
        effective(tool_dir_settings(bin_dir, host_path), name) == if name == "PATH"@ {
            search_path_value(host_path, bin_dir, true)
        } else if name == "SOUNDCONVERTER_BIN_DIR"@ {
            path_value(bin_dir)
        } else {
            None
        },
{
    lemma_names_differ();
    match bin_dir {
        Some(dir) => {
            let first = EnvSettingView {
                name: "SOUNDCONVERTER_BIN_DIR"@,
                value: EnvValueView::Path(dir),
            };
            lemma_effective_of_one(first, name);
            lemma_effective_search_path(host_path, dir, true, name);
            lemma_effective_of_two_runs(
                seq![first],
                search_path_settings(host_path, dir, true),
                name,
            );
        },
        None => {},
    }
}

proof fn lemma_effective_ffmpeg(
    ffmpeg: Option<LocationView>,
    host_path: Option<Seq<LocationView>>,
    name: Seq<char>,
)
    ensures
        effective(ffmpeg_settings(ffmpeg, host_path), name) == if name == "PATH"@ {
            search_path_value(host_path, ffmpeg_dir(ffmpeg), false)
        } else if name == "SOUNDCONVERTER_BIN_DIR"@ {
            path_value(ffmpeg_dir(ffmpeg))
        } else if name == "FFMPEG_BINARY"@ {
            path_value(ffmpeg)
        } else {
            None
        },
{
    lemma_names_differ();
    match ffmpeg {
        Some(tool) => {
            let first = EnvSettingView { name: "FFMPEG_BINARY"@, value: EnvValueView::Path(tool) };
            lemma_effective_of_one(first, name);
            match tool.parent() {
                Some(dir) => {
                    let last = EnvSettingView {
                        name: "SOUNDCONVERTER_BIN_DIR"@,
                        value: EnvValueView::Path(dir),
                    };
                    let path = search_path_settings(host_path, dir, false);
                    lemma_effective_of_one(last, name);
                    lemma_effective_search_path(host_path, dir, false, name);
                    lemma_effective_of_two_runs(path, seq![last], name);
                    lemma_effective_of_two_runs(seq![first], path + seq![last], name);
                },
                None => {
                    assert(seq![first] + Seq::<EnvSettingView>::empty() =~= seq![first]);
                },
            }
        },
        None => {},
    }
}

proof fn lemma_effective_home(python_home: Option<LocationView>, name: Seq<char>)
    ensures
        effective(home_settings(python_home), name) == if name == "PYTHONHOME"@ {
            path_value(python_home)
        } else {
            None
        },
{
    match python_home {
        Some(home) => {
            lemma_effective_of_one(
                EnvSettingView { name: "PYTHONHOME"@, value: EnvValueView::Path(home) },
                name,
            );
        },
        None => {},
    }
}

proof fn lemma_effective_flags(name: Seq<char>)
    ensures
        effective(flag_settings(), name) == if name == "PYTHONUNBUFFERED"@ || name
            == "PYTHONDONTWRITEBYTECODE"@ {
            Some(EnvValueView::Text("1"@))
        } else {
            None
        },
{
    lemma_names_differ();
    let first = EnvSettingView { name: "PYTHONUNBUFFERED"@, value: EnvValueView::Text("1"@) };
    let second = EnvSettingView {
        name: "PYTHONDONTWRITEBYTECODE"@,
        value: EnvValueView::Text("1"@),
    };
    lemma_effective_of_one(first, name);
    lemma_effective_of_one(second, name);
    lemma_effective_of_two_runs(seq![first], seq![second], name);
    assert(flag_settings() =~= seq![first] + seq![second]);
}

/// What the child sees once the settings are applied.
///
/// The two flags are always set. The interpreter's home is set exactly
/// where one was derived, and the media tool's location exactly where one
/// was found. The directory of bundled tools is that of the media tool
/// where it has one, else the resolved one. The search path gets the media
/// tool's directory put first where the host's path lacks it, else the
/// resolved directory of bundled tools where the host's path lacks that,
/// and is inherited unchanged otherwise. Nothing else is set.
pub proof fn lemma_effective_environment(
    resolution: PythonResolutionView,
    host_path: Option<Seq<LocationView>>,
    ffmpeg: Option<LocationView>,
    name: Seq<char>,
)
    ensures
        effective(child_environment(resolution, host_path, ffmpeg), name) == if name
            == "PYTHONUNBUFFERED"@ || name == "PYTHONDONTWRITEBYTECODE"@ {
            Some(EnvValueView::Text("1"@))
        } else if name == "PYTHONHOME"@ {
            path_value(resolution.python_home)
        } else if name == "FFMPEG_BINARY"@ {
            path_value(ffmpeg)
        } else if name == "SOUNDCONVERTER_BIN_DIR"@ {
            or_else(path_value(ffmpeg_dir(ffmpeg)), path_value(resolution.bin_dir))
        } else if name == "PATH"@ {
            or_else(
                search_path_value(host_path, ffmpeg_dir(ffmpeg), false),
                search_path_value(host_path, resolution.bin_dir, true),
            )
        } else {
            None
        },
{
    lemma_names_differ();
    let tools = tool_dir_settings(resolution.bin_dir, host_path);
    let media = ffmpeg_settings(ffmpeg, host_path);
    let home = home_settings(resolution.python_home);
    let flags = flag_settings();
    lemma_effective_tool_dir(resolution.bin_dir, host_path, name);
    lemma_effective_ffmpeg(ffmpeg, host_path, name);
    lemma_effective_home(resolution.python_home, name);
    lemma_effective_flags(name);
    lemma_effective_of_two_runs(tools, media, name);
    lemma_effective_of_two_runs(tools + media, home, name);
    lemma_effective_of_two_runs(tools + media + home, flags, name);
}

} // verus!
