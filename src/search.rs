//! Bounded upward search for a file whose name matches a pattern.
//!
//! The search itself reads no directory: whoever drives it lists the
//! directory that `UpwardSearch::current_dir` names and hands the listing to
//! `UpwardSearch::step`, which decides whether the search found a file,
//! climbs to the parent directory, or is over.
use vstd::prelude::*;

verus! {

#[verifier::external_type_specification]
#[verifier::external_body]
pub struct ExRegex(regex::Regex);

/// Whether the regular expression `pattern` matches somewhere in `name`.
pub uninterp spec fn regex_accepts(pattern: Seq<char>, name: Seq<char>) -> bool;

/// Whether `pattern` is a regular expression that compiles.
pub uninterp spec fn regex_valid(pattern: Seq<char>) -> bool;

/// The parent directory of the path `dir`, if it has one.
pub uninterp spec fn parent_of(dir: Seq<char>) -> Option<Seq<char>>;

/// Relies on `regex::Regex::new`: compiles `pattern`, or fails on a bad or
/// oversized one; which of the two depends on the pattern alone.
#[verifier::external_body]
fn compile_regex(pattern: &str) -> (r: Option<regex::Regex>)
    ensures
        r is Some <==> regex_valid(pattern@),
{
    regex::Regex::new(pattern).ok()
}

/// Relies on `std::path::Path::parent`: the path without its last component,
/// absent for a root or an empty path.
#[verifier::external_body]
pub(crate) fn parent_dir(dir: &str) -> (r: Option<String>)
    ensures
        match r {
            Some(p) => parent_of(dir@) == Some(p@),
            None => parent_of(dir@) is None,
        },
{
    match std::path::Path::new(dir).parent() {
        Some(p) => match p.to_str() {
            Some(s) => Some(s.to_string()),
            None => None,
        },
        None => None,
    }
}

/// A compiled regular expression over file names, with its source text.
pub struct NamePattern {
    source: String,
    re: regex::Regex,
}

impl View for NamePattern {
    type V = Seq<char>;

    closed spec fn view(&self) -> Seq<char> {
        self.source@
    }
}

/// Relies on `regex::Regex::is_match`, on a regex compiled from `p@` by
/// `NamePattern::new`: whether it matches somewhere in `name`.
#[verifier::external_body]
fn regex_is_match(p: &NamePattern, name: &str) -> (r: bool)
    ensures
        r == regex_accepts(p@, name@),
{
    p.re.is_match(name)
}

impl NamePattern {
    /// Compiles `pattern`; absent when it is not a valid regular expression.
    pub fn new(pattern: &str) -> (r: Option<NamePattern>)
        ensures
            r is Some <==> regex_valid(pattern@),
            r matches Some(p) ==> p@ == pattern@,
    {
        match compile_regex(pattern) {
            Some(re) => Some(NamePattern { source: pattern.to_string(), re }),
            None => None,
        }
    }

    /// Whether the pattern matches somewhere in `name`.
    pub fn matches(&self, name: &str) -> (r: bool)
        ensures
            r == regex_accepts(self@, name@),
    {
        regex_is_match(self, name)
    }
}

/// What the search reads of one directory entry. `name` and `path` are
/// absent when the entry's name or path is not valid Unicode, and `is_file`
/// is false when the entry's type could not be read.
pub struct DirEntryInfo {
    pub name: Option<String>,
    pub is_file: bool,
    pub path: Option<String>,
}

/// Whether the search takes `e`: a regular file whose name the pattern
/// matches and whose path is readable.
pub open spec fn entry_hit(e: DirEntryInfo, pattern: Seq<char>) -> bool {
    &&& e.is_file
    &&& e.name is Some
    &&& regex_accepts(pattern, e.name->0@)
    &&& e.path is Some
}

/// The path of the first entry of a listing that the search takes.
pub open spec fn first_hit(entries: Seq<DirEntryInfo>, pattern: Seq<char>) -> Option<Seq<char>>
    decreases entries.len(),
{
    if entries.len() == 0 {
        None
    } else if entry_hit(entries[0], pattern) {
        Some(entries[0].path->0@)
    } else {
        first_hit(entries.drop_first(), pattern)
    }
}

/// The directories that a search from `dir` with `hops` hops left may
/// inspect, nearest first: `dir`, then its ancestors while hops remain.
pub open spec fn ancestors(dir: Seq<char>, hops: nat) -> Seq<Seq<char>>
    decreases hops,
{
    if hops == 0 {
        seq![dir]
    } else {
        match parent_of(dir) {
            Some(p) => seq![dir] + ancestors(p, (hops - 1) as nat),
            None => seq![dir],
        }
    }
}

/// The path of the first entry in `entries`, in listing order, that is a
/// regular file whose name `pattern` matches.
pub fn search(entries: &Vec<DirEntryInfo>, pattern: &NamePattern) -> (r: Option<String>)
    ensures
        match r {
            Some(p) => first_hit(entries@, pattern@) == Some(p@),
            None => first_hit(entries@, pattern@) is None,
        },
{
    let mut i: usize = 0;
    assert(entries@.subrange(0, entries@.len() as int) =~= entries@);
    while i < entries.len()
        invariant
            i <= entries.len(),
            first_hit(entries@, pattern@) == first_hit(
                entries@.subrange(i as int, entries@.len() as int),
                pattern@,
            ),
        decreases entries.len() - i,
    {
        let e = &entries[i];
        let ghost rest = entries@.subrange(i as int, entries@.len() as int);
        assert(rest[0] == *e);
        assert(rest.drop_first() =~= entries@.subrange(i + 1, entries@.len() as int));
        if e.is_file {
            match &e.name {
                Some(name) => {
                    if pattern.matches(name.as_str()) {
                        match &e.path {
                            Some(path) => {
                                return Some(path.clone());
                            },
                            None => {},
                        }
                    }
                },
                None => {},
            }
        }
        i = i + 1;
    }
    None
}

/// What one step of the search decided.
pub enum SearchStep {
    /// The current directory holds a matching file; this is its path.
    Found(String),
    /// Nothing matched; the search moved to the parent directory.
    Climbed,
    /// Nothing matched and no hop or no parent is left: nothing is found.
    Exhausted,
}

/// Where an upward search stands: the directory to inspect next and the
/// number of hops still allowed.
pub struct UpwardSearchView {
    pub dir: Seq<char>,
    pub hops_left: nat,
}

/// An upward search in progress.
pub struct UpwardSearch {
    dir: String,
    hops_left: u8,
}

impl View for UpwardSearch {
    type V = UpwardSearchView;

    closed spec fn view(&self) -> UpwardSearchView {
        UpwardSearchView { dir: self.dir@, hops_left: self.hops_left as nat }
    }
}

impl UpwardSearch {
    /// A search that starts in `start` and may climb `max_hops` levels.
    pub fn new(start: &str, max_hops: u8) -> (r: UpwardSearch)
        ensures
            r@.dir == start@,
            r@.hops_left == max_hops,
    {
        UpwardSearch { dir: start.to_string(), hops_left: max_hops }
    }

    /// The directory whose listing the next step needs.
    pub fn current_dir(&self) -> (r: &str)
        ensures
            r@ == self@.dir,
    {
        self.dir.as_str()
    }

    /// Takes the listing of the current directory and decides: a match there
    /// ends the search; else it climbs to the parent while a hop and a parent
    /// are left; else it ends with nothing found.
    pub fn step(&mut self, listing: &Vec<DirEntryInfo>, pattern: &NamePattern) -> (r: SearchStep)
        ensures
            match first_hit(listing@, pattern@) {
                Some(p) => r matches SearchStep::Found(q) && q@ == p,
                None => if old(self)@.hops_left == 0 || parent_of(old(self)@.dir) is None {
                    r is Exhausted
                } else {
                    &&& r is Climbed
                    &&& Some(final(self)@.dir) == parent_of(old(self)@.dir)
                    &&& final(self)@.hops_left == old(self)@.hops_left - 1
                },
            },
            r is Climbed ==> ancestors(old(self)@.dir, old(self)@.hops_left) == seq![old(self)@.dir]
                + ancestors(final(self)@.dir, final(self)@.hops_left),
            !(r is Climbed) ==> final(self)@ == old(self)@,
    {
        match search(listing, pattern) {
            Some(p) => SearchStep::Found(p),
            None => {
                if self.hops_left == 0 {
                    return SearchStep::Exhausted;
                }
                match parent_dir(self.dir.as_str()) {
                    Some(parent) => {
                        self.dir = parent;
                        self.hops_left = self.hops_left - 1;
                        SearchStep::Climbed
                    },
                    None => SearchStep::Exhausted,
                }
            },
        }
    }
}

/// A search allowed no hop inspects its starting directory and no other.
pub proof fn lemma_zero_hops_stays(dir: Seq<char>)
    ensures
        ancestors(dir, 0) == seq![dir],
{
}

/// A search allowed `hops` hops inspects at most `hops + 1` directories,
/// the first of them its starting directory.
pub proof fn lemma_ancestors_bounded(dir: Seq<char>, hops: nat)
    ensures
        ancestors(dir, hops).len() <= hops + 1,
        ancestors(dir, hops)[0] == dir,
    decreases hops,
{
    if hops > 0 {
        if let Some(p) = parent_of(dir) {
            lemma_ancestors_bounded(p, (hops - 1) as nat);
        }
    }
}

} // verus!
