//! Which files the tree shows.
use crate::external::{regex_accepts, regex_is_match};
use vstd::prelude::*;
use vstd::string::*;

verus! {

/// Whether `pattern` is a valid regular expression.
pub uninterp spec fn regex_valid(pattern: Seq<char>) -> bool;

/// Relies on regex::Regex::new: tells whether the pattern compiles.
#[verifier::external_body]
fn regex_compiles(pattern: &str) -> (r: bool)
    ensures
        r == regex_valid(pattern@),
{
    regex::Regex::new(pattern).is_ok()
}

/// The last component of a path, as `Path::file_name` gives it.
pub uninterp spec fn file_name_of(path: Seq<char>) -> Option<Seq<char>>;

/// Relies on std::path::Path::file_name: the final component of the path,
/// if there is one.
#[verifier::external_body]
fn path_file_name(path: &str) -> (r: Option<String>)
    ensures
        r is None <==> file_name_of(path@) is None,
        r matches Some(n) ==> file_name_of(path@) == Some(n@),
{
    std::path::Path::new(path).file_name().map(|n| n.to_string_lossy().to_string())
}

/// Whether a file name is that of a hidden file.
pub open spec fn is_hidden_spec(name: Seq<char>) -> bool {
    name.len() > 0 && name[0] == '.'
}

/// Whether a file name starts with a dot.
pub fn is_hidden_name(name: &str) -> (r: bool)
    ensures
        r == is_hidden_spec(name@),
{
    name.unicode_len() > 0 && name.get_char(0) == '.'
}

/// Whether the list holds the text.
fn list_contains(list: &Vec<String>, s: &str) -> (r: bool)
    ensures
        r == exists|i: int| 0 <= i < list.len() && #[trigger] list[i]@ == s@,
{
    let mut i: usize = 0;
    while i < list.len()
        invariant
            i <= list.len(),
            forall|j: int| 0 <= j < i ==> #[trigger] list[j]@ != s@,
        decreases list.len() - i,
    {
        if string_eq(&list[i], s) {
            return true;
        }
        i = i + 1;
    }
    false
}

/// Whether the two texts are the same.
fn string_eq(a: &String, b: &str) -> (r: bool)
    ensures
        r == (a@ == b@),
{
    let t = a.as_str();
    let n = t.unicode_len();
    if n != b.unicode_len() {
        return false;
    }
    let mut i: usize = 0;
    while i < n
        invariant
            t@ == a@,
            n == t@.len() == b@.len(),
            i <= n,
            forall|j: int| 0 <= j < i ==> t@[j] == b@[j],
        decreases n - i,
    {
        if t.get_char(i) != b.get_char(i) {
            assert(t@[i as int] != b@[i as int]);
            return false;
        }
        i = i + 1;
    }
    assert(t@ =~= b@);
    true
}

/// Options of the tree: hidden files, the file name pattern, and the
/// paths that match it under the current root.
pub struct TreeOptions {
    pub show_hidden: bool,
    /// A valid regular expression file names are filtered by, if any.
    pub filename_pattern: Option<String>,
    /// The paths under the root that match the pattern, once prepared.
    pub white_list: Option<Vec<String>>,
}

impl TreeOptions {
    /// The paths that matched the pattern under the root, if a pattern
    /// was applied.
    pub open spec fn white_list_spec(&self) -> Option<Seq<Seq<char>>> {
        match self.white_list {
            Some(v) => Some(v@.map_values(|s: String| s@)),
            None => None,
        }
    }

    /// What `accepts` answers for a path.
    pub open spec fn accepts_spec(&self, path: Seq<char>) -> bool {
        match self.white_list_spec() {
            Some(list) => list.contains(path),
            None => !(file_name_of(path) matches Some(n) && is_hidden_spec(n)),
        }
    }

    pub fn new() -> (r: TreeOptions)
        ensures
            !r.show_hidden,
            r.filename_pattern is None,
            r.white_list_spec() is None,
    {
        TreeOptions { show_hidden: false, filename_pattern: None, white_list: None }
    }

    /// Filters file names by `pattern`, or by nothing when it is empty or
    /// not a valid regular expression.
    pub fn set_filename_pattern(&mut self, pattern: &str)
        ensures
            pattern@.len() > 0 && regex_valid(pattern@) ==> (final(self).filename_pattern matches Some(
                p,
            ) && p@ == pattern@),
            !(pattern@.len() > 0 && regex_valid(pattern@)) ==> final(self).filename_pattern is None,
            final(self).show_hidden == old(self).show_hidden,
            final(self).white_list_spec() == old(self).white_list_spec(),
    {
        self.filename_pattern = None;
        if pattern.unicode_len() > 0 && regex_compiles(pattern) {
            self.filename_pattern = Some(pattern.to_owned());
        }
    }

    /// Whether the tree shows the path: with a pattern applied, when the
    /// path matched; else when its file name does not start with a dot.
    pub fn accepts(&self, path: &str) -> (r: bool)
        ensures
            r == self.accepts_spec(path@),
    {
        match &self.white_list {
            Some(matches) => {
                let r = list_contains(matches, path);
                proof {
                    let list = self.white_list_spec()->Some_0;
                    if r {
                        let i = choose|i: int| 0 <= i < matches.len() && #[trigger] matches[i]@ == path@;
                        assert(list[i] == path@);
                    } else {
                        assert forall|i: int| 0 <= i < list.len() implies list[i] != path@ by {
                            assert(list[i] == matches[i]@);
                        }
                    }
                }
                r
            },
            None => match path_file_name(path) {
                Some(name) => !is_hidden_name(name.as_str()),
                None => true,
            },
        }
    }

    /// Whether a file name counts as a match: any name when no pattern is
    /// set, else the names the pattern matches.
    pub fn name_matches(&self, filename: &str) -> (r: bool)
        ensures
            r == match self.filename_pattern {
                Some(p) => regex_accepts(p@, filename@),
                None => true,
            },
    {
        match &self.filename_pattern {
            Some(p) => regex_is_match(p.as_str(), filename),
            None => true,
        }
    }

    /// Prepares the options for a new root: `matches` are the paths under
    /// the root that match the pattern, kept only when a pattern is set.
    pub fn prepare_for_root(&mut self, matches: Vec<String>)
        ensures
            final(self).filename_pattern == old(self).filename_pattern,
            final(self).show_hidden == old(self).show_hidden,
            old(self).filename_pattern is None ==> final(self).white_list_spec() is None,
            old(self).filename_pattern is Some ==> final(self).white_list_spec() == Some(
                matches@.map_values(|s: String| s@),
            ),
    {
        self.white_list = match &self.filename_pattern {
            None => None,
            Some(_) => Some(matches),
        };
    }
}

} // verus!
