//! File-system locations as plain data.
//!
//! A location is a path taken apart: the text of its root, where it has
//! one, and the names that follow it. Two locations are the same when they
//! agree part for part. Whether a location exists on disk is not decided
//! here: callers hand in the list of those that were found.

use vstd::prelude::*;

verus! {

/// A path, taken apart. `anchor` holds the root of an absolute path (with
/// its prefix, where the platform has one) and is `None` for a relative
/// path; `names` holds the parts that follow, outermost first.
#[derive(Debug, Clone, PartialEq, Eq)]
pub struct Location {
    pub anchor: Option<String>,
    pub names: Vec<String>,
}

pub struct LocationView {
    pub anchor: Option<Seq<char>>,
    pub names: Seq<Seq<char>>,
}

impl LocationView {
    /// The relative location made of `names`.
    pub open spec fn relative(names: Seq<Seq<char>>) -> LocationView {
        LocationView { anchor: None, names }
    }

    /// The location one level below this one.
    pub open spec fn child(self, name: Seq<char>) -> LocationView {
        LocationView { anchor: self.anchor, names: self.names.push(name) }
    }

    /// The location reached by going down through `names`.
    pub open spec fn descend(self, names: Seq<Seq<char>>) -> LocationView {
        LocationView { anchor: self.anchor, names: self.names + names }
    }

    /// The location one level up; `None` for a root and for the empty path.
    pub open spec fn parent(self) -> Option<LocationView> {
        if self.names.len() == 0 {
            None
        } else {
            Some(LocationView { anchor: self.anchor, names: self.names.drop_last() })
        }
    }

    /// The last name; `None` for a root and for the empty path.
    pub open spec fn last_name(self) -> Option<Seq<char>> {
        if self.names.len() == 0 {
            None
        } else {
            Some(self.names.last())
        }
    }
}

/// The characters of an optional string.
pub open spec fn opt_string(text: Option<String>) -> Option<Seq<char>> {
    match text {
        Some(s) => Some(s@),
        None => None,
    }
}

impl View for Location {
    type V = LocationView;

    open spec fn view(&self) -> LocationView {
        LocationView { anchor: opt_string(self.anchor), names: self.names.deep_view() }
    }
}

/// The view of an optional location.
pub open spec fn opt_location(location: Option<Location>) -> Option<LocationView> {
    match location {
        Some(l) => Some(l@),
        None => None,
    }
}

/// The views of a list of locations.
pub open spec fn location_views(locations: Seq<Location>) -> Seq<LocationView> {
    Seq::new(locations.len(), |i: int| locations[i]@)
}

/// `names`, each followed by nothing and separated by `separator`.
pub open spec fn joined(names: Seq<Seq<char>>, separator: Seq<char>) -> Seq<char>
    decreases names.len(),
{
    if names.len() == 0 {
        Seq::empty()
    } else if names.len() == 1 {
        names[0]
    } else {
        joined(names.drop_last(), separator) + separator + names.last()
    }
}

/// A location as text for diagnostics: the anchor, then the names
/// separated by `/`.
pub open spec fn display_text(location: LocationView) -> Seq<char> {
    match location.anchor {
        Some(anchor) => anchor + joined(location.names, "/"@),
        None => joined(location.names, "/"@),
    }
}

/// Copies a list of strings.
pub fn copy_names(names: &Vec<String>) -> (r: Vec<String>)
    ensures
        r.deep_view() == names.deep_view(),
{
    let r = names.clone();
    assert(r.deep_view() =~= names.deep_view());
    r
}

/// Joins `names` with `separator` between them.
pub fn join_names(names: &Vec<String>, separator: &str) -> (r: String)
    ensures
        r@ == joined(names.deep_view(), separator@),
{
    let mut out = String::new();
    let mut i: usize = 0;
    assert(names.deep_view().take(0) =~= Seq::<Seq<char>>::empty());
    while i < names.len()
        invariant
            i <= names.len(),
            out@ == joined(names.deep_view().take(i as int), separator@),
        decreases names.len() - i,
    {
        let ghost upto = names.deep_view().take(i + 1);
        assert(upto.drop_last() =~= names.deep_view().take(i as int));
        assert(upto.last() == names[i as int]@);
        if i > 0 {
            out = out.concat(separator);
        } else {
            assert(out@ + names[i as int]@ =~= names[i as int]@);
        }
        out = out.concat(names[i].as_str());
        i = i + 1;
    }
    assert(names.deep_view().take(names.len() as int) =~= names.deep_view());
    out
}

impl Location {
    /// The relative location with the given names.
    pub fn relative(names: Vec<String>) -> (r: Location)
        ensures
            r@ == LocationView::relative(names.deep_view()),
    {
        Location { anchor: None, names }
    }

    /// A copy of the location.
    pub fn duplicate(&self) -> (r: Location)
        ensures
            r@ == self@,
    {
        let anchor = match &self.anchor {
            Some(a) => Some(a.clone()),
            None => None,
        };
        Location { anchor, names: copy_names(&self.names) }
    }

    /// The location one level below this one.
    pub fn child(&self, name: &str) -> (r: Location)
        ensures
            r@ == self@.child(name@),
    {
        let mut r = self.duplicate();
        let ghost before = r.names.deep_view();
        r.names.push(name.to_owned());
        assert(r.names.deep_view() =~= before.push(name@));
        r
    }

    /// The location reached by going down through `names`.
    pub fn descend(&self, names: &Vec<&str>) -> (r: Location)
        ensures
            r@ == self@.descend(names.deep_view()),
    {
        let mut r = self.duplicate();
        let mut i: usize = 0;
        assert(self.names.deep_view() + names.deep_view().take(0) =~= self.names.deep_view());
        while i < names.len()
            invariant
                i <= names.len(),
                r@.anchor == self@.anchor,
                r.names.deep_view() == self.names.deep_view() + names.deep_view().take(i as int),
            decreases names.len() - i,
        {
            let ghost before = r.names.deep_view();
            r.names.push(names[i].to_owned());
            assert(r.names.deep_view() =~= before.push(names[i as int]@));
            assert(before.push(names[i as int]@) =~= self.names.deep_view()
                + names.deep_view().take(i + 1));
            i = i + 1;
        }
        assert(names.deep_view().take(names.len() as int) =~= names.deep_view());
        r
    }

    /// The location one level up; `None` for a root and for the empty path.
    pub fn parent(&self) -> (r: Option<Location>)
        ensures
            opt_location(r) == self@.parent(),
    {
        if self.names.len() == 0 {
            None
        } else {
            let mut r = self.duplicate();
            let ghost before = r.names.deep_view();
            r.names.pop();
            assert(r.names.deep_view() =~= before.drop_last());
            Some(r)
        }
    }

    /// Whether the last name is `name`.
    pub fn is_named(&self, name: &str) -> (r: bool)
        ensures
            r == (self@.last_name() == Some(name@)),
    {
        if self.names.len() == 0 {
            false
        } else {
            let last = &self.names[self.names.len() - 1];
            *last == name.to_owned()
        }
    }

    /// Whether two locations agree part for part.
    pub fn same(&self, other: &Location) -> (r: bool)
        ensures
            r == (self@ == other@),
    {
        let anchors_agree = match (&self.anchor, &other.anchor) {
            (Some(a), Some(b)) => *a == *b,
            (None, None) => true,
            _ => false,
        };
        assert(anchors_agree == (self@.anchor == other@.anchor));
        assert(self@.names.len() == self.names.len() && other@.names.len() == other.names.len());
        if !anchors_agree || self.names.len() != other.names.len() {
            return false;
        }
        let mut i: usize = 0;
        while i < self.names.len()
            invariant
                i <= self.names.len(),
                self.names.len() == other.names.len(),
                self@.anchor == other@.anchor,
                forall|k: int| 0 <= k < i ==> self.names[k]@ == other.names[k]@,
            decreases self.names.len() - i,
        {
            if self.names[i] != other.names[i] {
                assert(self@.names[i as int] != other@.names[i as int]);
                return false;
            }
            i = i + 1;
        }
        assert(self@.names =~= other@.names);
        true
    }

    /// The location as text for diagnostics.
    pub fn display(&self) -> (r: String)
        ensures
            r@ == display_text(self@),
    {
        let tail = join_names(&self.names, "/");
        match &self.anchor {
            Some(anchor) => anchor.clone().concat(tail.as_str()),
            None => tail,
        }
    }
}

/// Whether `target` is among `locations`.
pub fn is_listed(locations: &Vec<Location>, target: &Location) -> (r: bool)
    ensures
        r == location_views(locations@).contains(target@),
{
    let mut i: usize = 0;
    while i < locations.len()
        invariant
            i <= locations.len(),
            forall|k: int| 0 <= k < i ==> locations[k]@ != target@,
        decreases locations.len() - i,
    {
        if locations[i].same(target) {
            assert(location_views(locations@)[i as int] == target@);
            return true;
        }
        i = i + 1;
    }
    false
}

/// A list of at most one location.
pub open spec fn opt_seq(location: Option<LocationView>) -> Seq<LocationView> {
    match location {
        Some(l) => seq![l],
        None => Seq::empty(),
    }
}

/// The location reached from `dir` through `names`, where `dir` is known.
pub open spec fn below(dir: Option<LocationView>, names: Seq<Seq<char>>) -> Option<LocationView> {
    match dir {
        Some(d) => Some(d.descend(names)),
        None => None,
    }
}

/// The directory above `dir`, where `dir` is known and has one.
pub open spec fn above(dir: Option<LocationView>) -> Option<LocationView> {
    match dir {
        Some(d) => d.parent(),
        None => None,
    }
}

/// The location reached from `dir` through `names`, where `dir` is known.
pub(crate) fn descend_from(dir: &Option<Location>, names: &Vec<&str>) -> (r: Option<Location>)
    ensures
        opt_location(r) == below(opt_location(*dir), names.deep_view()),
{
    match dir {
        Some(d) => Some(d.descend(names)),
        None => None,
    }
}

/// Appends `location` to `list`, where it is known.
pub(crate) fn push_known(list: &mut Vec<Location>, location: Option<Location>)
    ensures
        location_views(final(list)@) == location_views(old(list)@) + opt_seq(
            opt_location(location),
        ),
{
    let ghost before = location_views(list@);
    match location {
        Some(l) => {
            list.push(l);
            assert(location_views(list@) =~= before + seq![l@]);
        },
        None => {
            assert(location_views(list@) =~= before + Seq::<LocationView>::empty());
        },
    }
}

/// Appends `more` to `list`.
pub(crate) fn extend(list: &mut Vec<Location>, more: Vec<Location>)
    ensures
        location_views(final(list)@) == location_views(old(list)@) + location_views(more@),
{
    let ghost before = location_views(list@);
    let mut rest = more;
    list.append(&mut rest);
    assert(location_views(list@) =~= before + location_views(more@));
}

} // verus!
