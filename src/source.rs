//! Classification of raw inputs into requirement sources.
use vstd::prelude::*;

verus! {

/// Where a set of requirements comes from.
#[derive(Debug)]
pub enum RequirementsSource {
    /// A dependency given directly (e.g., `pip install flask`).
    Name(String),
    /// Dependencies given in a requirements file (e.g., `pip install -r requirements.txt`).
    RequirementsTxt(String),
    /// Dependencies given in a manifest (e.g., `pip-compile pyproject.toml`).
    PyprojectToml(String),
}

/// The file name that marks a project manifest.
pub open spec fn manifest_file_name() -> Seq<char> {
    seq!['p', 'y', 'p', 'r', 'o', 'j', 'e', 'c', 't', '.', 't', 'o', 'm', 'l']
}

/// Whether the character at `i` ends a path segment that holds nothing, or
/// only `.`: such segments are not components of the path.
pub open spec fn is_trivial_tail(p: Seq<char>, i: int) -> bool {
    p[i] == '/' || (p[i] == '.' && (i == 0 || p[i - 1] == '/'))
}

/// The length of the prefix of `p[..end]` left once trailing separators and
/// `.` segments are dropped: the final component ends there.
pub open spec fn component_end(p: Seq<char>, end: int) -> int
    decreases end,
{
    if end <= 0 {
        0
    } else if is_trivial_tail(p, end - 1) {
        component_end(p, end - 1)
    } else {
        end
    }
}

/// Whether the final component of the path `p` is exactly `pyproject.toml`.
pub open spec fn is_manifest_path(p: Seq<char>) -> bool {
    let e = component_end(p, p.len() as int);
    let n = manifest_file_name().len() as int;
    e >= n && p.subrange(e - n, e) == manifest_file_name() && (e == n || p[e - n - 1] == '/')
}

fn is_trivial_tail_at(p: &str, i: usize) -> (r: bool)
    requires
        i < p@.len(),
    ensures
        r == is_trivial_tail(p@, i as int),
{
    let c = p.get_char(i);
    c == '/' || (c == '.' && (i == 0 || p.get_char(i - 1) == '/'))
}

/// Whether the final component of `path` is exactly `pyproject.toml`.
pub fn ends_with_manifest_name(path: &str) -> (r: bool)
    ensures
        r == is_manifest_path(path@),
{
    let len = path.unicode_len();
    let mut end: usize = len;
    while end > 0 && is_trivial_tail_at(path, end - 1)
        invariant
            end <= len == path@.len(),
            component_end(path@, len as int) == component_end(path@, end as int),
        decreases end,
    {
        end = end - 1;
    }
    assert(component_end(path@, end as int) == end);
    let name = "pyproject.toml";
    proof {
        reveal_strlit("pyproject.toml");
    }
    let n = name.unicode_len();
    assert(name@ == manifest_file_name());
    if end < n {
        return false;
    }
    let start = end - n;
    if start > 0 && path.get_char(start - 1) != '/' {
        return false;
    }
    let mut k: usize = 0;
    while k < n
        invariant
            k <= n == manifest_file_name().len(),
            start + n == end <= path@.len(),
            name@ == manifest_file_name(),
            component_end(path@, path@.len() as int) == end,
            start == 0 || path@[start - 1] == '/',
            forall|j: int| 0 <= j < k ==> path@[start + j] == manifest_file_name()[j],
        decreases n - k,
    {
        if path.get_char(start + k) != name.get_char(k) {
            assert(path@.subrange(start as int, end as int)[k as int] != manifest_file_name()[k as int]);
            assert(path@.subrange(start as int, end as int) != manifest_file_name());
            return false;
        }
        k = k + 1;
    }
    assert(path@.subrange(start as int, end as int) =~= manifest_file_name());
    true
}

impl RequirementsSource {
    /// A source given as a literal string is always a direct specifier.
    pub fn from_name(name: String) -> (r: Self)
        ensures
            r == RequirementsSource::Name(name),
    {
        RequirementsSource::Name(name)
    }

    /// A source given as a path is a manifest exactly when its final
    /// component is `pyproject.toml`, and a requirements file otherwise.
    pub fn from_path(path: String) -> (r: Self)
        ensures
            is_manifest_path(path@) ==> r == RequirementsSource::PyprojectToml(path),
            !is_manifest_path(path@) ==> r == RequirementsSource::RequirementsTxt(path),
    {
        if ends_with_manifest_name(path.as_str()) {
            RequirementsSource::PyprojectToml(path)
        } else {
            RequirementsSource::RequirementsTxt(path)
        }
    }
}

} // verus!
