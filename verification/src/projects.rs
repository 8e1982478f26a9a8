//! Project discovery: recognizing project-descriptor files among the paths
//! found under a workspace root, and converting each to a `file://` URI for
//! the initialization notification.

use vstd::prelude::*;
use vstd::string::StrSliceExecFns;
use vstd::string::StringExecFns;

verus! {

/// The filename extension that marks a project-descriptor file.
pub open spec fn project_suffix() -> Seq<char> {
    ".csproj"@
}

/// A path names a project-descriptor file exactly when it ends in the
/// project suffix.
pub open spec fn is_project_path(path: Seq<char>) -> bool {
    &&& path.len() >= project_suffix().len()
    &&& path.subrange(path.len() - project_suffix().len(), path.len() as int)
        == project_suffix()
}

/// The URI the language server is given for a project file: the path
/// prefixed with the `file://` scheme, with no escaping or normalization.
pub open spec fn uri_of(path: Seq<char>) -> Seq<char> {
    "file://"@ + path
}

/// The URIs of the project-descriptor files among a set of candidate paths,
/// in the order the candidates were handed in: every match is kept, every
/// other path is dropped.
pub open spec fn project_uris_of(paths: Seq<Seq<char>>) -> Seq<Seq<char>>
    decreases paths.len(),
{
    if paths.len() == 0 {
        Seq::empty()
    } else {
        let rest = project_uris_of(paths.drop_last());
        if is_project_path(paths.last()) {
            rest.push(uri_of(paths.last()))
        } else {
            rest
        }
    }
}

/// Converts an absolute filesystem path to a `file://` URI.
pub fn path_to_uri(file_path: &str) -> (uri: String)
    ensures
        uri@ == uri_of(file_path@),
{
    let prefix: String = <String as StringExecFns>::from_str("file://");
    <String as StringExecFns>::concat(prefix, file_path)
}

/// Decides whether a path names a project-descriptor file.
pub fn has_project_suffix(path: &str) -> (b: bool)
    ensures
        b == is_project_path(path@),
{
    let suffix: &str = ".csproj";
    proof {
        reveal_strlit(".csproj");
        assert(suffix@ =~= project_suffix());
    }
    let n: usize = suffix.unicode_len();
    let len: usize = path.unicode_len();
    if len < n {
        return false;
    }
    let ghost tail: Seq<char> = path@.subrange(len - n, len as int);
    let mut i: usize = 0;
    while i < n
        invariant
            i <= n,
            n == suffix@.len(),
            len == path@.len(),
            n <= len,
            suffix@ == project_suffix(),
            tail == path@.subrange(len - n, len as int),
            forall|j: int| 0 <= j < i ==> tail[j] == suffix@[j],
        decreases n - i,
    {
        let c = path.get_char(len - n + i);
        let s = suffix.get_char(i);
        if c != s {
            proof {
                assert(tail[i as int] != suffix@[i as int]);
                assert(!is_project_path(path@)) by {
                    if is_project_path(path@) {
                        assert(tail == project_suffix());
                        assert(tail[i as int] == suffix@[i as int]);
                    }
                }
            }
            return false;
        }
        i += 1;
    }
    proof {
        assert(tail =~= suffix@);
        assert(suffix@ == project_suffix());
    }
    true
}

/// Collects the URIs of the project-descriptor files among the candidate
/// paths, keeping the candidates' order.
pub fn project_uris(candidates: &Vec<String>) -> (uris: Vec<String>)
    ensures
        uris.deep_view() == project_uris_of(candidates.deep_view()),
{
    let mut uris: Vec<String> = Vec::new();
    let mut i: usize = 0;
    while i < candidates.len()
        invariant
            i <= candidates.len(),
            uris.deep_view() == project_uris_of(candidates.deep_view().take(i as int)),
        decreases candidates.len() - i,
    {
        let ghost dv = candidates.deep_view();
        let ghost prefix = dv.take(i as int);
        let ghost next = dv.take(i + 1);
        proof {
            assert(next.drop_last() =~= prefix);
            assert(next.last() == dv[i as int]);
            assert(dv[i as int] == candidates[i as int].deep_view());
        }
        let candidate = &candidates[i];
        if has_project_suffix(candidate.as_str()) {
            let uri = path_to_uri(candidate.as_str());
            uris.push(uri);
            proof {
                assert(uris.deep_view() =~= project_uris_of(prefix).push(uri_of(candidate@)));
                assert(project_uris_of(next) == project_uris_of(prefix).push(uri_of(next.last())));
            }
        } else {
            proof {
                assert(project_uris_of(next) == project_uris_of(prefix));
            }
        }
        i += 1;
    }
    proof {
        assert(candidates.deep_view().take(candidates.len() as int)
            =~= candidates.deep_view());
    }
    uris
}

/// A workspace with no project-descriptor files among its candidates yields
/// an empty list of project URIs, never an error.
pub proof fn lemma_no_projects_empty(paths: Seq<Seq<char>>)
    requires
        forall|i: int| 0 <= i < paths.len() ==> !is_project_path(#[trigger] paths[i]),
    ensures
        project_uris_of(paths) == Seq::<Seq<char>>::empty(),
    decreases paths.len(),
{
    if paths.len() > 0 {
        assert(forall|i: int|
            0 <= i < paths.drop_last().len() ==> !is_project_path(#[trigger] paths.drop_last()[i]));
        lemma_no_projects_empty(paths.drop_last());
        assert(!is_project_path(paths.last()));
    }
}

} // verus!
