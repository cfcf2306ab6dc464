//! Path sandbox: every file or working-directory path the agent hands us is
//! validated against the project root before any file operation runs.
//!
//! Paths are modelled as character strings with `/` as the separator.  The
//! resolution of a path against the real file system (following symlinks,
//! checking existence) cannot happen here; the caller performs it and reports
//! the outcome as a [`Resolution`] value.  Everything decided from that
//! outcome — the traversal check on the raw input, candidate construction,
//! parent splitting, and the containment check — is verified here.

use vstd::prelude::*;
use crate::text::{is_prefix, str_eq, str_starts_with, join_with_slash};

verus! {

/// A path segment equal to `..` starts at index `i` of `s`: the two dots are
/// bounded by `/` or by the ends of the string.
pub open spec fn parent_segment_at(s: Seq<char>, i: int) -> bool {
    &&& 0 <= i
    &&& i + 2 <= s.len()
    &&& s[i] == '.'
    &&& s[i + 1] == '.'
    &&& (i == 0 || s[i - 1] == '/')
    &&& (i + 2 == s.len() || s[i + 2] == '/')
}

/// The path contains a parent-directory traversal segment.
pub open spec fn has_parent_traversal(s: Seq<char>) -> bool {
    exists|i: int| parent_segment_at(s, i)
}

/// Checks the raw path text for a `..` segment.
pub fn contains_parent_traversal(path: &str) -> (r: bool)
    ensures
        r == has_parent_traversal(path@),
{
    let n = path.unicode_len();
    if n < 2 {
        proof {
            assert(forall|i: int| !parent_segment_at(path@, i));
        }
        return false;
    }
    let mut i: usize = 0;
    while i <= n - 2
        invariant
            2 <= n,
            n == path@.len(),
            i <= n,
            forall|j: int| 0 <= j < i ==> !parent_segment_at(path@, j),
        decreases n - i,
    {
        let c0 = path.get_char(i);
        let c1 = path.get_char(i + 1);
        let left_ok = if i == 0 {
            true
        } else {
            path.get_char(i - 1) == '/'
        };
        let right_ok = if i + 2 == n {
            true
        } else {
            path.get_char(i + 2) == '/'
        };
        if c0 == '.' && c1 == '.' && left_ok && right_ok {
            proof {
                assert(parent_segment_at(path@, i as int));
            }
            return true;
        }
        i += 1;
    }
    proof {
        assert(forall|j: int| !parent_segment_at(path@, j));
    }
    false
}

/// The path is absolute: it begins with `/`.
pub open spec fn is_absolute_path(s: Seq<char>) -> bool {
    s.len() > 0 && s[0] == '/'
}

/// The candidate to resolve: an absolute path is taken as given, a relative
/// one is joined onto the project root.
pub open spec fn spec_candidate(root: Seq<char>, path: Seq<char>) -> Seq<char> {
    if is_absolute_path(path) {
        path
    } else {
        root + seq!['/'] + path
    }
}

/// Builds the candidate path for resolution.
pub fn candidate_path(root: &str, path: &str) -> (r: String)
    ensures
        r@ == spec_candidate(root@, path@),
{
    if path.unicode_len() > 0 && path.get_char(0) == '/' {
        path.to_owned()
    } else {
        join_with_slash(root, path)
    }
}

/// `p` lies at or below `root`: it is `root` itself, or `root` followed by a
/// `/`-separated remainder (with the root directory `/` treated as a prefix
/// of every absolute path).
pub open spec fn within_root(p: Seq<char>, root: Seq<char>) -> bool {
    ||| p == root
    ||| (is_prefix(root, p) && p.len() > root.len() && (root == seq!['/'] || p[root.len() as int]
        == '/'))
}

/// Checks that `p` lies at or below `root`.
pub fn path_within_root(p: &str, root: &str) -> (r: bool)
    ensures
        r == within_root(p@, root@),
{
    proof {
        reveal_strlit("/");
        assert("/"@ =~= seq!['/']);
    }
    if str_eq(p, root) {
        return true;
    }
    if !str_starts_with(p, root) {
        return false;
    }
    let rl = root.unicode_len();
    let pl = p.unicode_len();
    if pl <= rl {
        proof {
            assert(p@.take(rl as int) =~= p@);
        }
        return false;
    }
    if str_eq(root, "/") {
        return true;
    }
    p.get_char(rl) == '/'
}

/// Index of the last `/` in `s`, or `-1` if there is none.
pub open spec fn last_slash(s: Seq<char>) -> int
    decreases s.len(),
{
    if s.len() == 0 {
        -1
    } else if s[s.len() - 1] == '/' {
        s.len() - 1
    } else {
        last_slash(s.drop_last())
    }
}

pub proof fn lemma_last_slash_bounds(s: Seq<char>)
    ensures
        -1 <= last_slash(s) < s.len(),
    decreases s.len(),
{
    if s.len() == 0 {
    } else if s[s.len() - 1] == '/' {
    } else {
        lemma_last_slash_bounds(s.drop_last());
    }
}

fn find_last_slash(s: &str) -> (r: Option<usize>)
    ensures
        match r {
            Some(j) => last_slash(s@) == j as int,
            None => last_slash(s@) == -1,
        },
{
    let n = s.unicode_len();
    let mut k = n;
    proof {
        assert(s@.take(n as int) =~= s@);
    }
    while k > 0
        invariant
            k <= n,
            n == s@.len(),
            last_slash(s@) == last_slash(s@.take(k as int)),
        decreases k,
    {
        proof {
            assert(s@.take(k as int).len() == k);
            assert(s@.take(k as int)[k - 1] == s@[k - 1]);
        }
        if s.get_char(k - 1) == '/' {
            return Some(k - 1);
        }
        proof {
            assert(s@.take(k as int).drop_last() =~= s@.take(k - 1));
        }
        k -= 1;
    }
    proof {
        assert(s@.take(0) =~= Seq::<char>::empty());
    }
    None
}

/// The parent of path `p`, in the sense of the text model: everything before
/// the last `/` (the root directory `/` for a top-level entry), or `None`
/// where `p` is `/` itself or holds no `/` at all.
pub open spec fn spec_parent(p: Seq<char>) -> Option<Seq<char>> {
    if p == seq!['/'] {
        None
    } else {
        let j = last_slash(p);
        if j < 0 {
            None
        } else if j == 0 {
            Some(seq!['/'])
        } else {
            Some(p.take(j))
        }
    }
}

/// Everything after the last `/` of `p` (all of `p` if it has none).
pub open spec fn spec_file_name(p: Seq<char>) -> Seq<char> {
    p.skip(last_slash(p) + 1)
}

/// Computes the parent of `p`, for the caller to resolve when the leaf of a
/// write target does not exist yet.
pub fn parent_path(p: &str) -> (r: Option<String>)
    ensures
        match (r, spec_parent(p@)) {
            (Some(a), Some(b)) => a@ == b,
            (None, None) => true,
            _ => false,
        },
{
    proof {
        reveal_strlit("/");
        assert("/"@ =~= seq!['/']);
    }
    if str_eq(p, "/") {
        return None;
    }
    match find_last_slash(p) {
        None => None,
        Some(j) => {
            if j == 0 {
                Some("/".to_owned())
            } else {
                proof {
                    lemma_last_slash_bounds(p@);
                }
                Some(p.substring_char(0, j).to_owned())
            }
        },
    }
}

/// Extracts the file name of `p`.
pub fn file_name_of(p: &str) -> (r: &str)
    ensures
        r@ == spec_file_name(p@),
{
    let n = p.unicode_len();
    match find_last_slash(p) {
        None => {
            proof {
                assert(p@.skip(0) =~= p@);
            }
            p
        },
        Some(j) => {
            proof {
                lemma_last_slash_bounds(p@);
            }
            p.substring_char(j + 1, n)
        },
    }
}

/// Outcome of an attempt to resolve a path on the real file system,
/// reported by the caller: the canonical form, or the resolver's own error
/// text (for example because the path does not exist).
pub enum Resolution {
    Resolved(String),
    Unresolved(String),
}

/// Abstract value of a resolution outcome.
pub enum ResolutionView {
    Resolved(Seq<char>),
    Unresolved(Seq<char>),
}

impl View for Resolution {
    type V = ResolutionView;

    open spec fn view(&self) -> ResolutionView {
        match self {
            Resolution::Resolved(s) => ResolutionView::Resolved(s@),
            Resolution::Unresolved(cause) => ResolutionView::Unresolved(cause@),
        }
    }
}

/// Why a path was rejected by the sandbox.
#[derive(Debug)]
pub enum SandboxError {
    /// The raw input held a `..` segment.
    ParentTraversal,
    /// The path could not be resolved and missing leaves were not allowed;
    /// carries the resolver's own error text.
    ResolveFailed { cause: String },
    /// The candidate has no parent directory to resolve.
    NoParent,
    /// The parent of the candidate could not be resolved.
    InvalidParent,
    /// The candidate has no usable file name.
    NoFileName,
    /// The resolved path escapes the project root.
    OutsideRoot,
}

/// Why a path was rejected, as an abstract value.
pub enum SandboxRejection {
    ParentTraversal,
    ResolveFailed { cause: Seq<char> },
    NoParent,
    InvalidParent,
    NoFileName,
    OutsideRoot,
}

/// Abstract value of a rejection.
pub open spec fn sandbox_error_view(e: SandboxError) -> SandboxRejection {
    match e {
        SandboxError::ParentTraversal => SandboxRejection::ParentTraversal,
        SandboxError::ResolveFailed { cause } => SandboxRejection::ResolveFailed { cause: cause@ },
        SandboxError::NoParent => SandboxRejection::NoParent,
        SandboxError::InvalidParent => SandboxRejection::InvalidParent,
        SandboxError::NoFileName => SandboxRejection::NoFileName,
        SandboxError::OutsideRoot => SandboxRejection::OutsideRoot,
    }
}

/// The text reported for each rejection; a resolution failure names the
/// resolver's cause.
pub open spec fn spec_sandbox_message(e: SandboxError) -> Seq<char> {
    match e {
        SandboxError::ParentTraversal => "parent paths are not allowed"@,
        SandboxError::ResolveFailed { cause } => "failed to resolve path: "@ + cause@,
        SandboxError::NoParent => "path has no parent"@,
        SandboxError::InvalidParent => "invalid parent path"@,
        SandboxError::NoFileName => "path has no file name"@,
        SandboxError::OutsideRoot => "path is outside project root"@,
    }
}

impl SandboxError {
    /// A description of the rejection.
    pub fn message(&self) -> (r: String)
        ensures
            r@ == spec_sandbox_message(*self),
    {
        match self {
            SandboxError::ParentTraversal => "parent paths are not allowed".to_owned(),
            SandboxError::ResolveFailed { cause } => {
                let mut s = "failed to resolve path: ".to_owned();
                s.append(cause.as_str());
                s
            },
            SandboxError::NoParent => "path has no parent".to_owned(),
            SandboxError::InvalidParent => "invalid parent path".to_owned(),
            SandboxError::NoFileName => "path has no file name".to_owned(),
            SandboxError::OutsideRoot => "path is outside project root".to_owned(),
        }
    }
}

/// The whole validation decision, over the reported resolution outcomes.
///
/// `leaf` is the outcome of resolving the candidate itself; `parent` the
/// outcome of resolving the candidate's parent, consulted only when the leaf
/// is missing and missing leaves are allowed.
pub open spec fn spec_validate(
    root: Seq<char>,
    path: Seq<char>,
    allow_missing: bool,
    leaf: ResolutionView,
    parent: ResolutionView,
) -> Result<Seq<char>, SandboxRejection> {
    if has_parent_traversal(path) {
        Err(SandboxRejection::ParentTraversal)
    } else {
        match leaf {
            ResolutionView::Resolved(c) => if within_root(c, root) {
                Ok(c)
            } else {
                Err(SandboxRejection::OutsideRoot)
            },
            ResolutionView::Unresolved(cause) => {
                if !allow_missing {
                    Err(SandboxRejection::ResolveFailed { cause })
                } else {
                    let cand = spec_candidate(root, path);
                    match spec_parent(cand) {
                        None => Err(SandboxRejection::NoParent),
                        Some(_) => match parent {
                            ResolutionView::Unresolved(_) => Err(SandboxRejection::InvalidParent),
                            ResolutionView::Resolved(cp) => {
                                let name = spec_file_name(cand);
                                if name.len() == 0 || name == seq!['.'] {
                                    Err(SandboxRejection::NoFileName)
                                } else {
                                    let joined = cp + seq!['/'] + name;
                                    if within_root(joined, root) {
                                        Ok(joined)
                                    } else {
                                        Err(SandboxRejection::OutsideRoot)
                                    }
                                }
                            },
                        },
                    }
                }
            },
        }
    }
}

/// Abstract value of a validation result.
pub open spec fn validate_view(r: Result<String, SandboxError>) -> Result<
    Seq<char>,
    SandboxRejection,
> {
    match r {
        Ok(s) => Ok(s@),
        Err(e) => Err(sandbox_error_view(e)),
    }
}

/// Validates a path against the project root.
///
/// Rejects raw `..` segments outright; accepts a resolved candidate only if
/// it stays at or below the root; for a missing leaf with `allow_missing`,
/// accepts the resolved parent joined with the file name, under the same
/// containment check.  A path containing a traversal segment always fails,
/// whatever the resolution outcomes report; every accepted path lies within
/// the root.  Where the leaf had to resolve and could not, the resolver's
/// reported cause is carried into the error.
pub fn validate(
    root: &str,
    path: &str,
    allow_missing: bool,
    leaf: &Resolution,
    parent: &Resolution,
) -> (r: Result<String, SandboxError>)
    ensures
        validate_view(r) == spec_validate(root@, path@, allow_missing, leaf@, parent@),
        has_parent_traversal(path@) ==> (r matches Err(e) && e matches
            SandboxError::ParentTraversal),
        r matches Ok(p) ==> within_root(p@, root@),
        leaf@ matches ResolutionView::Resolved(c) ==> (!has_parent_traversal(path@)
            ==> if within_root(c, root@) {
            r matches Ok(p) && p@ == c
        } else {
            r matches Err(e) && e matches SandboxError::OutsideRoot
        }),
{
    if contains_parent_traversal(path) {
        return Err(SandboxError::ParentTraversal);
    }
    match leaf {
        Resolution::Resolved(c) => {
            if path_within_root(c.as_str(), root) {
                Ok(c.clone())
            } else {
                Err(SandboxError::OutsideRoot)
            }
        },
        Resolution::Unresolved(cause) => {
            if !allow_missing {
                return Err(SandboxError::ResolveFailed { cause: cause.clone() });
            }
            let cand = candidate_path(root, path);
            match parent_path(cand.as_str()) {
                None => Err(SandboxError::NoParent),
                Some(_) => match parent {
                    Resolution::Unresolved(_) => Err(SandboxError::InvalidParent),
                    Resolution::Resolved(cp) => {
                        let name = file_name_of(cand.as_str());
                        let name_is_dot = str_eq(name, ".");
                        proof {
                            reveal_strlit(".");
                            assert("."@ =~= seq!['.']);
                        }
                        if name.unicode_len() == 0 || name_is_dot {
                            Err(SandboxError::NoFileName)
                        } else {
                            let joined = join_with_slash(cp.as_str(), name);
                            if path_within_root(joined.as_str(), root) {
                                Ok(joined)
                            } else {
                                Err(SandboxError::OutsideRoot)
                            }
                        }
                    },
                },
            }
        },
    }
}

} // verus!
