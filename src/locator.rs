use vstd::prelude::*;

use crate::text::{contains, ends_with, has_infix, has_suffix};

verus! {

/// The extension that a weight file's name ends with.
pub const MODEL_SUFFIX: &'static str = ".bin";

/// The marker in a weight file's name that designates a chat-tuned variant.
pub const CHAT_MARKER: &'static str = "-chat";

/// The places probed, in order, when no model path is given.
pub const LOCATION_7B: &'static str = "/usr/lib/llama/llama-2-7b-chat.ggmlv3.q4_1.bin";
pub const LOCATION_13B: &'static str = "/usr/lib/llama/llama-2-13b-chat.ggmlv3.q4_1.bin";
pub const LOCATION_DIR: &'static str = "/usr/lib/llama";

/// What reading a directory child's type gave.
pub enum EntryKind {
    Directory,
    NotDirectory,
    /// The type could not be read.
    Unknown,
}

/// One step of a directory listing, in the order the filesystem yields them.
pub enum Child {
    /// A child: its name where that is valid UTF-8, its full path, its type.
    Entry { name: Option<String>, path: String, kind: EntryKind },
    /// The listing failed at this point.
    Unreadable,
}

/// What was found at one search location.
pub enum Probe {
    /// Nothing is there.
    Missing,
    /// An error other than "not found" kept it from being read.
    Inaccessible,
    /// Something that is not a directory (a file) is there.
    File,
    /// A directory, with its immediate children.
    Directory(Vec<Child>),
}

/// Why no model path could be chosen.
#[derive(PartialEq, Eq, Structural, Debug)]
pub enum LocateError {
    /// Every search location was absent or held nothing that qualifies.
    ModelNotFound,
}

/// The text of an optional string.
pub open spec fn view_opt(o: Option<String>) -> Option<Seq<char>> {
    match o {
        Some(s) => Some(s@),
        None => None,
    }
}

/// A file name that marks a chat-tuned weight file.
pub open spec fn name_qualifies(name: Seq<char>) -> bool {
    has_suffix(name, MODEL_SUFFIX@) && has_infix(name, CHAT_MARKER@)
}

/// A directory child that is selected as the model: its name qualifies and it
/// is known not to be a directory.
pub open spec fn child_qualifies(c: Child) -> bool {
    match c {
        Child::Entry { name, path, kind } => match name {
            Some(n) => name_qualifies(n@) && kind is NotDirectory,
            None => false,
        },
        Child::Unreadable => false,
    }
}

/// The full path of a directory child.
pub open spec fn child_path(c: Child) -> Seq<char> {
    match c {
        Child::Entry { name, path, kind } => path@,
        Child::Unreadable => Seq::empty(),
    }
}

/// The outcome of scanning a listing: the path of the first child that
/// qualifies, unless the listing fails before one is reached.
pub open spec fn scan_spec(children: Seq<Child>) -> Option<Seq<char>>
    decreases children.len(),
{
    if children.len() == 0 {
        None
    } else if children[0] is Unreadable {
        None
    } else if child_qualifies(children[0]) {
        Some(child_path(children[0]))
    } else {
        scan_spec(children.drop_first())
    }
}

/// What one search location yields.
pub open spec fn examine_spec(location: Seq<char>, probe: Probe) -> Option<Seq<char>> {
    match probe {
        Probe::File => Some(location),
        Probe::Directory(children) => scan_spec(children@),
        _ => None,
    }
}

/// The result of probing `locations` in order, `probes[i]` being what was
/// found at `locations[i]`: the yield of the first location that yields one.
pub open spec fn first_match(locations: Seq<Seq<char>>, probes: Seq<Probe>) -> Option<Seq<char>>
    decreases probes.len(),
{
    if probes.len() == 0 {
        None
    } else {
        match first_match(locations, probes.drop_last()) {
            Some(p) => Some(p),
            None => examine_spec(locations[probes.len() - 1], probes.last()),
        }
    }
}

/// Whether a file name marks a chat-tuned weight file.
pub fn name_is_chat_model(name: &str) -> (r: bool)
    ensures
        r == name_qualifies(name@),
{
    ends_with(name, MODEL_SUFFIX) && contains(name, CHAT_MARKER)
}

/// Scans a directory listing once, without descending, for the first child
/// that qualifies. A failure of the listing ends the scan with no result.
pub fn scan_directory(children: &Vec<Child>) -> (r: Option<String>)
    ensures
        view_opt(r) == scan_spec(children@),
{
    let mut i: usize = 0;
    assert(children@.subrange(0, children@.len() as int) =~= children@);
    while i < children.len()
        invariant
            i <= children@.len(),
            scan_spec(children@) == scan_spec(children@.subrange(i as int, children@.len() as int)),
        decreases children.len() - i,
    {
        let rest = Ghost(children@.subrange(i as int, children@.len() as int));
        assert(rest@.drop_first() =~= children@.subrange(i + 1, children@.len() as int));
        match &children[i] {
            Child::Unreadable => {
                return None;
            },
            Child::Entry { name, path, kind } => {
                if let Some(n) = name {
                    if name_is_chat_model(n.as_str()) && matches!(kind, EntryKind::NotDirectory) {
                        return Some(path.clone());
                    }
                }
            },
        }
        i += 1;
    }
    assert(children@.subrange(i as int, children@.len() as int).len() == 0);
    None
}

/// What one search location yields: the location itself where it is a file,
/// the first qualifying child where it is a directory, else nothing.
pub fn examine(location: &String, probe: &Probe) -> (r: Option<String>)
    ensures
        view_opt(r) == examine_spec(location@, *probe),
{
    match probe {
        Probe::File => Some(location.clone()),
        Probe::Directory(children) => scan_directory(children),
        _ => None,
    }
}


/// Probes search locations one at a time, in order, and stops at the first
/// that yields a model path. The caller performs each probe: it asks for the
/// pending location, looks at it, and feeds back what it found.
pub struct Locator {
    locations: Vec<String>,
    next: usize,
    found: Option<String>,
    fed: Ghost<Seq<Probe>>,
}

impl Locator {
    /// The search locations, in priority order.
    pub closed spec fn locations_view(&self) -> Seq<Seq<char>> {
        self.locations@.map_values(|s: String| s@)
    }

    /// What was found at each location probed so far, in order.
    pub closed spec fn probed(&self) -> Seq<Probe> {
        self.fed@
    }

    /// The locator's bookkeeping agrees with what it was fed: `found` is the
    /// result of the search over the probes so far.
    pub closed spec fn wf(&self) -> bool {
        &&& self.next == self.fed@.len()
        &&& self.next <= self.locations.len()
        &&& view_opt(self.found) == first_match(self.locations_view(), self.fed@)
    }

    /// Nothing is left to probe: a location has yielded a path, or every one
    /// has been probed.
    pub open spec fn finished(&self) -> bool {
        ||| first_match(self.locations_view(), self.probed()) is Some
        ||| self.probed().len() == self.locations_view().len()
    }

    /// A locator over `locations`, in that order, with nothing probed yet.
    pub fn new(locations: Vec<String>) -> (r: Locator)
        ensures
            r.wf(),
            r.locations_view() == locations@.map_values(|s: String| s@),
            r.probed() == Seq::<Probe>::empty(),
    {
        Locator { locations, next: 0, found: None, fed: Ghost(Seq::empty()) }
    }

    /// A locator over the standard search locations.
    pub fn standard() -> (r: Locator)
        ensures
            r.wf(),
            r.locations_view() == seq![LOCATION_7B@, LOCATION_13B@, LOCATION_DIR@],
            r.probed() == Seq::<Probe>::empty(),
    {
        let locations = vec![
            String::from_str(LOCATION_7B),
            String::from_str(LOCATION_13B),
            String::from_str(LOCATION_DIR),
        ];
        let r = Locator::new(locations);
        assert(r.locations_view() =~= seq![LOCATION_7B@, LOCATION_13B@, LOCATION_DIR@]);
        r
    }

    /// The location to probe next, or `None` once the search is finished.
    pub fn pending(&self) -> (r: Option<String>)
        requires
            self.wf(),
        ensures
            r is None <==> self.finished(),
            r matches Some(l) ==> l@ == self.locations_view()[self.probed().len() as int],
    {
        if self.found.is_some() || self.next == self.locations.len() {
            None
        } else {
            Some(self.locations[self.next].clone())
        }
    }

    /// Records what was found at the pending location.
    pub fn feed(&mut self, probe: Probe)
        requires
            old(self).wf(),
            !old(self).finished(),
        ensures
            final(self).wf(),
            final(self).locations_view() == old(self).locations_view(),
            final(self).probed() == old(self).probed().push(probe),
    {
        let ghost before = self.fed@;
        let found = examine(&self.locations[self.next], &probe);
        self.fed = Ghost(self.fed@.push(probe));
        assert(self.fed@.drop_last() =~= before);
        self.found = found;
        self.next = self.next + 1;
    }

    /// The chosen path, or `ModelNotFound` when no location yielded one.
    pub fn outcome(&self) -> (r: Result<String, LocateError>)
        requires
            self.wf(),
            self.finished(),
        ensures
            match first_match(self.locations_view(), self.probed()) {
                Some(p) => r matches Ok(path) && path@ == p,
                None => r == Err::<String, LocateError>(LocateError::ModelNotFound),
            },
    {
        match &self.found {
            Some(p) => Ok(p.clone()),
            None => Err(LocateError::ModelNotFound),
        }
    }
}

/// Chooses the model path: `explicit` as it is where one is given (it is not
/// checked here), else the outcome of the finished search.
pub fn resolve(explicit: Option<String>, search: &Locator) -> (r: Result<String, LocateError>)
    requires
        search.wf(),
        explicit is None ==> search.finished(),
    ensures
        explicit matches Some(p) ==> r == Ok::<String, LocateError>(p),
        explicit is None ==> match first_match(search.locations_view(), search.probed()) {
            Some(p) => r matches Ok(path) && path@ == p,
            None => r == Err::<String, LocateError>(LocateError::ModelNotFound),
        },
{
    match explicit {
        Some(p) => Ok(p),
        None => search.outcome(),
    }
}

/// Once a prefix of the locations has yielded a path, whatever is found at
/// later locations leaves the result unchanged: the first match wins and the
/// locations after it do not matter.
pub proof fn first_match_ignores_later(
    locations: Seq<Seq<char>>,
    probes: Seq<Probe>,
    later: Seq<Probe>,
)
    requires
        first_match(locations, probes) is Some,
    ensures
        first_match(locations, probes + later) == first_match(locations, probes),
    decreases later.len(),
{
    if later.len() > 0 {
        first_match_ignores_later(locations, probes, later.drop_last());
        assert((probes + later).drop_last() =~= probes + later.drop_last());
    } else {
        assert(probes + later =~= probes);
    }
}

/// The search yields the path of location `k` exactly when every location
/// before `k` yields nothing and location `k` yields that path.
pub proof fn first_match_is_earliest(locations: Seq<Seq<char>>, probes: Seq<Probe>, k: int)
    requires
        0 <= k < probes.len(),
        forall|j: int| 0 <= j < k ==> examine_spec(locations[j], #[trigger] probes[j]) is None,
        examine_spec(locations[k], probes[k]) is Some,
    ensures
        first_match(locations, probes) == examine_spec(locations[k], probes[k]),
    decreases probes.len(),
{
    if k < probes.len() - 1 {
        first_match_is_earliest(locations, probes.drop_last(), k);
        first_match_ignores_later(locations, probes.drop_last(), seq![probes.last()]);
        assert(probes.drop_last() + seq![probes.last()] =~= probes);
    } else {
        nothing_before(locations, probes.drop_last());
    }
}

/// Where no probed location yields anything, the search yields nothing.
pub proof fn nothing_before(locations: Seq<Seq<char>>, probes: Seq<Probe>)
    requires
        forall|j: int| 0 <= j < probes.len() ==> examine_spec(locations[j], #[trigger] probes[j]) is None,
    ensures
        first_match(locations, probes) is None,
    decreases probes.len(),
{
    if probes.len() > 0 {
        nothing_before(locations, probes.drop_last());
    }
}

} // verus!
