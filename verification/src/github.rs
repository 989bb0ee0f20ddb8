//! Naming a module on GitHub: `owner/repo`, `owner/repo@ref`, `github:…` or a
//! github.com URL, and the labels and download URLs derived from it.

use vstd::prelude::*;
use crate::text::{
    opt_view, chars_of, contains_seq, contains_str, find_char, index_of, is_text, is_ws, lemma_index_of_at,
    lemma_index_of_bound, lemma_split_nonempty, lemma_split_without,
    push_all, push_str, slice_chars, split_chars, split_on, starts_with_str, string_from_chars,
    strip_prefix, trim, trim_end_char, trim_end_char_exec, trim_end_pat, trim_end_pat_exec, trim_exec, views,
};

verus! {

/// A module repository on GitHub, optionally pinned to a branch, tag or commit.
#[derive(Debug, Clone, PartialEq, Eq)]
pub struct GitHubSpec {
    pub owner: String,
    pub repo: String,
    pub reference: Option<String>,
}

/// The character content of a [`GitHubSpec`].
pub struct GitHubSpecView {
    pub owner: Seq<char>,
    pub repo: Seq<char>,
    pub reference: Option<Seq<char>>,
}

impl View for GitHubSpec {
    type V = GitHubSpecView;

    open spec fn view(&self) -> GitHubSpecView {
        GitHubSpecView { owner: self.owner@, repo: self.repo@, reference: opt_view(self.reference) }
    }
}

/// Why a module spec was refused.
#[derive(Debug, Clone, Copy, PartialEq, Eq, Structural)]
pub enum GitHubSpecError {
    /// Nothing but whitespace and slashes was given.
    Empty,
    /// A URL that is not a github.com repository URL.
    UnsupportedUrl,
    /// No owner before the slash.
    MissingOwner,
    /// No repository after the owner.
    MissingRepo,
    /// Path segments after `owner/repo` that are not a `tree`/`commit` reference.
    UnexpectedPath,
    /// The repository name is empty once `.git` is removed.
    Invalid,
}

// ---------------------------------------------------------------------------
// Specification
// ---------------------------------------------------------------------------

/// `s` without the prefix `p`, when `s` starts with `p`.
pub open spec fn strip(s: Seq<char>, p: Seq<char>) -> Option<Seq<char>> {
    if p.is_prefix_of(s) {
        Some(s.skip(p.len() as int))
    } else {
        None
    }
}

/// `s` without the prefix `p` if it has it, else `s`.
pub open spec fn strip_or_keep(s: Seq<char>, p: Seq<char>) -> Seq<char> {
    match strip(s, p) {
        Some(t) => t,
        None => s,
    }
}

/// The repository path named by a trimmed, non-empty spec: `github:` or a
/// github.com URL prefix removed, and one leading slash dropped. A spec
/// written as a URL (with a scheme, `www.` or `://`) must be on github.com.
pub open spec fn spec_path(trimmed: Seq<char>) -> Result<Seq<char>, GitHubSpecError> {
    let (without_proto, had_scheme) = match strip(trimmed, "https://"@) {
        Some(t) => (t, true),
        None => match strip(trimmed, "http://"@) {
            Some(t) => (t, true),
            None => (trimmed, false),
        },
    };
    let had_www = "www."@.is_prefix_of(without_proto);
    let without_www = strip_or_keep(without_proto, "www."@);
    let path = match strip(without_www, "github.com/"@) {
        Some(rest) => Ok(rest),
        None => if had_scheme || had_www || contains_seq(without_www, "://"@) || "github.com"@.is_prefix_of(
            without_www,
        ) {
            Err(GitHubSpecError::UnsupportedUrl)
        } else {
            Ok(strip_or_keep(without_www, "github:"@))
        },
    };
    match path {
        Ok(p) => Ok(strip_or_keep(p, "/"@)),
        Err(e) => Err(e),
    }
}

/// `owner/repo` of a `…/tree/<ref>` or `…/commit/<ref>` URL path, with the
/// reference, or of a `…/archive/…` download link; any other path is kept
/// whole.
pub open spec fn spec_split_url_tree(path: Seq<char>) -> (Seq<char>, Option<Seq<char>>) {
    let segs = split_on(path, '/');
    if segs.len() >= 4 && (segs[2] == "tree"@ || segs[2] == "commit"@) {
        (path.take(segs[0].len() + 1 + segs[1].len() as int), Some(segs[3]))
    } else if segs.len() >= 3 && segs[2] == "archive"@ {
        (path.take(segs[0].len() + 1 + segs[1].len() as int), None)
    } else {
        (path, None)
    }
}

/// The pieces of `parts` that are not empty, in order.
pub open spec fn non_empty(parts: Seq<Seq<char>>) -> Seq<Seq<char>>
    decreases parts.len(),
{
    if parts.len() == 0 {
        seq![]
    } else if parts.last().len() > 0 {
        non_empty(parts.drop_last()).push(parts.last())
    } else {
        non_empty(parts.drop_last())
    }
}

/// What a module spec names: the meaning of [`parse_github_spec`].
pub open spec fn spec_parse_github(input: Seq<char>) -> Result<GitHubSpecView, GitHubSpecError> {
    let trimmed = trim_end_char(trim(input), '/');
    if trimmed.len() == 0 {
        Err(GitHubSpecError::Empty)
    } else {
        match spec_path(trimmed) {
            Err(e) => Err(e),
            Ok(path0) => {
                let (path, reference_from_url) = spec_split_url_tree(path0);
                let at = index_of(path, '@');
                let repo_part = if at < path.len() { path.take(at as int) } else { path };
                let reference_from_at = if at < path.len() {
                    Some(path.skip(at as int + 1))
                } else {
                    None::<Seq<char>>
                };
                let parts = non_empty(split_on(repo_part, '/'));
                if parts.len() == 0 {
                    Err(GitHubSpecError::MissingOwner)
                } else if parts.len() == 1 {
                    Err(GitHubSpecError::MissingRepo)
                } else if parts.len() > 2 && reference_from_url is None {
                    Err(GitHubSpecError::UnexpectedPath)
                } else {
                    let repo = trim_end_pat(parts[1], ".git"@);
                    if repo.len() == 0 {
                        Err(GitHubSpecError::Invalid)
                    } else {
                        Ok(
                            GitHubSpecView {
                                owner: parts[0],
                                repo,
                                reference: match reference_from_at {
                                    Some(r) => Some(r),
                                    None => reference_from_url,
                                },
                            },
                        )
                    }
                }
            },
        }
    }
}

/// `github:owner/repo` with `@ref` when pinned.
pub open spec fn spec_source_label(g: GitHubSpecView) -> Seq<char> {
    let base = "github:"@ + g.owner + "/"@ + g.repo;
    match g.reference {
        Some(r) => base + "@"@ + r,
        None => base,
    }
}

/// The GitHub API URL of the repository archive at the reference.
pub open spec fn spec_zipball_url(g: GitHubSpecView) -> Seq<char> {
    let base = "https://api.github.com/repos/"@ + g.owner + "/"@ + g.repo + "/zipball"@;
    match g.reference {
        Some(r) => base + "/"@ + r,
        None => base,
    }
}

// ---------------------------------------------------------------------------
// Implementation
// ---------------------------------------------------------------------------

impl GitHubSpec {
    /// `github:owner/repo` or `github:owner/repo@ref`, as recorded in the
    /// project configuration.
    pub fn source_label(&self) -> (label: String)
        ensures
            label@ == spec_source_label(self@),
    {
        let mut v: Vec<char> = Vec::new();
        push_str(&mut v, "github:");
        push_all(&mut v, &chars_of(self.owner.as_str()));
        push_str(&mut v, "/");
        push_all(&mut v, &chars_of(self.repo.as_str()));
        match &self.reference {
            Some(reference) => {
                push_str(&mut v, "@");
                push_all(&mut v, &chars_of(reference.as_str()));
            },
            None => {},
        }
        string_from_chars(&v)
    }

    /// Download URL of the repository zip archive.
    pub fn zipball_url(&self) -> (url: String)
        ensures
            url@ == spec_zipball_url(self@),
    {
        let mut v: Vec<char> = Vec::new();
        push_str(&mut v, "https://api.github.com/repos/");
        push_all(&mut v, &chars_of(self.owner.as_str()));
        push_str(&mut v, "/");
        push_all(&mut v, &chars_of(self.repo.as_str()));
        push_str(&mut v, "/zipball");
        match &self.reference {
            Some(reference) => {
                push_str(&mut v, "/");
                push_all(&mut v, &chars_of(reference.as_str()));
            },
            None => {},
        }
        string_from_chars(&v)
    }
}

fn strip_or_keep_exec(s: Vec<char>, lit: &str) -> (r: Vec<char>)
    ensures
        r@ == strip_or_keep(s@, lit@),
{
    match strip_prefix(&s, lit) {
        Some(rest) => rest,
        None => s,
    }
}

fn spec_path_exec(trimmed: Vec<char>) -> (r: Result<Vec<char>, GitHubSpecError>)
    ensures
        match r {
            Ok(p) => spec_path(trimmed@) == Ok::<Seq<char>, GitHubSpecError>(p@),
            Err(e) => spec_path(trimmed@) == Err::<Seq<char>, GitHubSpecError>(e),
        },
{
    let (without_proto, had_scheme) = match strip_prefix(&trimmed, "https://") {
        Some(t) => (t, true),
        None => match strip_prefix(&trimmed, "http://") {
            Some(t) => (t, true),
            None => (trimmed, false),
        },
    };
    let had_www = starts_with_str(&without_proto, "www.");
    let without_www = strip_or_keep_exec(without_proto, "www.");
    let path = match strip_prefix(&without_www, "github.com/") {
        Some(rest) => rest,
        None => {
            if had_scheme || had_www || contains_str(&without_www, "://") || starts_with_str(
                &without_www,
                "github.com",
            ) {
                return Err(GitHubSpecError::UnsupportedUrl);
            }
            strip_or_keep_exec(without_www, "github:")
        },
    };
    Ok(strip_or_keep_exec(path, "/"))
}

/// Takes the reference out of a `owner/repo/tree/<ref>` (or `commit`) path;
/// any other path is kept whole.
fn split_url_tree(path: Vec<char>) -> (r: (Vec<char>, Option<Vec<char>>))
    ensures
        spec_split_url_tree(path@) == (r.0@, match r.1 {
            Some(x) => Some(x@),
            None => None::<Seq<char>>,
        }),
{
    let segments = split_chars(&path, '/');
    proof {
        assert(segments@.len() == views(segments@).len());
    }
    if segments.len() >= 4 && (is_text(&segments[2], "tree") || is_text(&segments[2], "commit")) {
        let len0 = segments[0].len();
        let len1 = segments[1].len();
        proof {
            lemma_split_prefix(path@, '/');
            assert(views(segments@)[0] == segments@[0]@);
            assert(views(segments@)[1] == segments@[1]@);
            assert(len0 + 1 + len1 <= path.len());
        }
        let head = slice_chars(&path, 0, len0 + 1 + len1);
        let reference = slice_chars(&segments[3], 0, segments[3].len());
        proof {
            assert(reference@ =~= segments@[3]@);
        }
        return (head, Some(reference));
    }
    if segments.len() >= 3 && is_text(&segments[2], "archive") {
        let len0 = segments[0].len();
        let len1 = segments[1].len();
        proof {
            lemma_split_prefix(path@, '/');
            assert(views(segments@)[0] == segments@[0]@);
            assert(views(segments@)[1] == segments@[1]@);
            assert(len0 + 1 + len1 <= path.len());
        }
        return (slice_chars(&path, 0, len0 + 1 + len1), None);
    }
    (path, None)
}

/// The first two pieces of a split lie at the front of the string, cut by
/// the separator.
proof fn lemma_split_prefix(s: Seq<char>, c: char)
    requires
        split_on(s, c).len() >= 2,
    ensures
        split_on(s, c)[0].len() + 1 + split_on(s, c)[1].len() <= s.len(),
{
    lemma_index_of_bound(s, c);
    let i = index_of(s, c);
    if i >= s.len() {
        assert(split_on(s, c).len() == 1);
    } else {
        let t = s.skip(i as int + 1);
        lemma_split_nonempty(t, c);
        lemma_split_piece_len(t, c);
        assert(split_on(s, c) == seq![s.take(i as int)] + split_on(t, c));
        assert(split_on(s, c)[1] == split_on(t, c)[0]);
    }
}

proof fn lemma_split_piece_len(s: Seq<char>, c: char)
    ensures
        split_on(s, c).len() >= 1,
        split_on(s, c)[0].len() <= s.len(),
{
    lemma_split_nonempty(s, c);
    lemma_index_of_bound(s, c);
}

/// The non-empty pieces of `parts`, in order.
fn non_empty_exec(parts: &Vec<Vec<char>>) -> (r: Vec<Vec<char>>)
    ensures
        views(r@) == non_empty(views(parts@)),
{
    let mut r: Vec<Vec<char>> = Vec::new();
    let mut i: usize = 0;
    while i < parts.len()
        invariant
            i <= parts.len(),
            views(r@) == non_empty(views(parts@).take(i as int)),
        decreases parts.len() - i,
    {
        let ghost before = views(r@);
        proof {
            let t = views(parts@).take(i + 1);
            assert(t.drop_last() =~= views(parts@).take(i as int));
            assert(t.last() == parts@[i as int]@);
        }
        if parts[i].len() > 0 {
            let piece = slice_chars(&parts[i], 0, parts[i].len());
            proof {
                assert(piece@ =~= parts@[i as int]@);
            }
            r.push(piece);
            proof {
                assert(views(r@) =~= before.push(piece@));
            }
        }
        i = i + 1;
    }
    assert(views(parts@).take(parts.len() as int) =~= views(parts@));
    r
}

/// Parses `owner/repo`, `owner/repo@ref`, `github:owner/repo` or a github.com
/// URL (with `.git`, or `/tree/<ref>` naming the reference).
pub fn parse_github_spec(input: &str) -> (r: Result<GitHubSpec, GitHubSpecError>)
    ensures
        match r {
            Ok(g) => spec_parse_github(input@) == Ok::<GitHubSpecView, GitHubSpecError>(g@),
            Err(e) => spec_parse_github(input@) == Err::<GitHubSpecView, GitHubSpecError>(e),
        },
{
    let raw = chars_of(input);
    let trimmed = trim_end_char_exec(&trim_exec(&raw), '/');
    if trimmed.len() == 0 {
        return Err(GitHubSpecError::Empty);
    }
    let path0 = match spec_path_exec(trimmed) {
        Ok(p) => p,
        Err(e) => return Err(e),
    };
    let (path, reference_from_url) = split_url_tree(path0);
    let at = find_char(&path, 0, '@');
    proof {
        assert(path@.skip(0) =~= path@);
    }
    let repo_part = if at < path.len() {
        slice_chars(&path, 0, at)
    } else {
        slice_chars(&path, 0, path.len())
    };
    let reference_from_at = if at < path.len() {
        Some(slice_chars(&path, at + 1, path.len()))
    } else {
        None
    };
    proof {
        assert(path@.take(at as int) =~= repo_part@ || at >= path@.len());
        assert(path@.subrange(0, path@.len() as int) =~= path@);
    }
    let pieces = split_chars(&repo_part, '/');
    let parts = non_empty_exec(&pieces);
    proof {
        assert(parts@.len() == views(parts@).len());
    }
    if parts.len() == 0 {
        return Err(GitHubSpecError::MissingOwner);
    }
    if parts.len() == 1 {
        return Err(GitHubSpecError::MissingRepo);
    }
    if parts.len() > 2 && reference_from_url.is_none() {
        return Err(GitHubSpecError::UnexpectedPath);
    }
    let git = chars_of(".git");
    proof {
        reveal_strlit(".git");
    }
    let repo = trim_end_pat_exec(&parts[1], &git);
    if repo.len() == 0 {
        return Err(GitHubSpecError::Invalid);
    }
    let reference = match reference_from_at {
        Some(r) => Some(string_from_chars(&r)),
        None => match reference_from_url {
            Some(u) => Some(string_from_chars(&u)),
            None => None,
        },
    };
    let g = GitHubSpec {
        owner: string_from_chars(&parts[0]),
        repo: string_from_chars(&repo),
        reference,
    };
    proof {
        assert(views(parts@)[0] == parts@[0]@);
        assert(views(parts@)[1] == parts@[1]@);
    }
    Ok(g)
}


// ---------------------------------------------------------------------------
// Laws
// ---------------------------------------------------------------------------

/// A piece of a label with no `/`, `@`, `:` or whitespace, as GitHub owner
/// and repository names are.
pub open spec fn plain_name(s: Seq<char>) -> bool {
    forall|i: int|
        0 <= i < s.len() ==> #[trigger] s[i] != '/' && s[i] != '@' && s[i] != ':' && !is_ws(s[i])
}

/// A reference that a label carries unchanged: no `/` and no whitespace.
pub open spec fn plain_reference(s: Seq<char>) -> bool {
    forall|i: int| 0 <= i < s.len() ==> #[trigger] s[i] != '/' && !is_ws(s[i])
}

proof fn lemma_not_prefix(p: Seq<char>, s: Seq<char>, i: int)
    requires
        0 <= i < p.len(),
        i < s.len(),
        p[i] != s[i],
    ensures
        !p.is_prefix_of(s),
{
    if p.is_prefix_of(s) {
        assert(s.subrange(0, p.len() as int)[i] == s[i]);
    }
}

proof fn lemma_split_two(a: Seq<char>, b: Seq<char>)
    requires
        forall|i: int| 0 <= i < a.len() ==> a[i] != '/',
        forall|i: int| 0 <= i < b.len() ==> b[i] != '/',
    ensures
        split_on(a + seq!['/'] + b, '/') == seq![a, b],
{
    let s = a + seq!['/'] + b;
    lemma_index_of_at(s, '/', a.len() as int);
    assert(s.take(a.len() as int) =~= a);
    assert(s.skip(a.len() as int + 1) =~= b);
    lemma_split_without(b, '/');
}

/// A module spec parses back from its source label: the `source` that
/// `fusion add` records names the same repository at the same reference.
#[verifier::rlimit(60)]
pub proof fn source_label_parses_back(g: GitHubSpecView)
    requires
        g.owner.len() > 0,
        g.repo.len() > 0,
        plain_name(g.owner),
        plain_name(g.repo),
        !".git"@.is_suffix_of(g.repo),
        g.reference matches Some(r) ==> plain_reference(r),
    ensures
        spec_parse_github(spec_source_label(g)) == Ok::<GitHubSpecView, GitHubSpecError>(g),
{
    reveal_strlit("github:");
    reveal_strlit("/");
    reveal_strlit("@");
    reveal_strlit("https://");
    reveal_strlit("http://");
    reveal_strlit("www.");
    reveal_strlit("github.com/");
    reveal_strlit("github.com");
    reveal_strlit("://");
    reveal_strlit(".git");
    let owner = g.owner;
    let repo = g.repo;
    let tail: Seq<char> = match g.reference {
        Some(r) => seq!['@'] + r,
        None => seq![],
    };
    let rest = owner + seq!['/'] + (repo + tail);
    let s = spec_source_label(g);
    assert(s =~= "github:"@ + rest) by {
        assert("github:"@ + owner + "/"@ + repo =~= "github:"@ + owner + seq!['/'] + repo);
    }
    let sep: int = 7 + owner.len() as int;
    assert forall|i: int| 0 <= i < s.len() && s[i] == '/' implies i == sep by {
        if i < 7 {
        } else if i < sep {
            assert(s[i] == owner[i - 7]);
        } else if i > sep {
            if i < sep + 1 + repo.len() {
                assert(s[i] == repo[i - sep - 1]);
            } else {
                let r = g.reference->0;
                assert(s[i] == r[i - sep - 2 - repo.len()]);
            }
        }
    }
    // The label has no surrounding whitespace and no trailing slash.
    assert(!is_ws(s[0]));
    assert(!is_ws(s.last()) && s.last() != '/') by {
        match g.reference {
            Some(r) => {
                if r.len() > 0 {
                    assert(s.last() == r[r.len() - 1]);
                } else {
                    assert(s.last() == '@');
                }
            },
            None => {
                assert(s.last() == repo[repo.len() - 1]);
            },
        }
    }
    assert(trim(s) == s);
    assert(trim_end_char(s, '/') == s);
    // The path is what follows `github:`.
    lemma_not_prefix("https://"@, s, 0);
    lemma_not_prefix("http://"@, s, 0);
    lemma_not_prefix("www."@, s, 0);
    lemma_not_prefix("github.com/"@, s, 6);
    lemma_not_prefix("github.com"@, s, 6);
    assert(!contains_seq(s, "://"@)) by {
        if contains_seq(s, "://"@) {
            let i = choose|i: int| 0 <= i <= s.len() - 3 && #[trigger] s.subrange(i, i + 3) == "://"@;
            assert(s.subrange(i, i + 3)[1] == s[i + 1]);
            assert(s.subrange(i, i + 3)[0] == s[i]);
            assert(i + 1 == sep);
            assert(s[i] == owner[owner.len() - 1]);
        }
    }
    assert("github:"@.is_prefix_of(s));
    assert(s.skip(7) =~= rest);
    assert(!"/"@.is_prefix_of(rest)) by {
        lemma_not_prefix("/"@, rest, 0);
    }
    assert(spec_path(s) == Ok::<Seq<char>, GitHubSpecError>(rest));
    // Splitting at the slash gives the owner and the rest of the path.
    assert forall|i: int| 0 <= i < repo.len() + tail.len() implies (repo + tail)[i] != '/' by {
        assert(rest[owner.len() + 1 + i] == (repo + tail)[i]);
        assert(s[sep + 1 + i] == rest[owner.len() + 1 + i]);
    }
    lemma_split_two(owner, repo + tail);
    assert(rest.take(owner.len() as int + 1 + (repo + tail).len()) =~= rest);
    assert(spec_split_url_tree(rest) == (rest, None::<Seq<char>>));
    // The first `@` separates the reference.
    let at: int = owner.len() as int + 1 + repo.len();
    match g.reference {
        Some(r) => {
            assert(rest[at] == '@');
            lemma_index_of_at(rest, '@', at);
            assert(rest.take(at) =~= owner + seq!['/'] + repo);
            assert(rest.skip(at + 1) =~= r);
        },
        None => {
            assert(rest =~= owner + seq!['/'] + repo);
            lemma_index_of_at(rest, '@', rest.len() as int);
        },
    }
    let repo_part = owner + seq!['/'] + repo;
    lemma_split_two(owner, repo);
    assert(split_on(repo_part, '/') == seq![owner, repo]);
    assert(seq![owner, repo].drop_last() =~= seq![owner]);
    assert(seq![owner].drop_last() =~= Seq::<Seq<char>>::empty());
    assert(non_empty(Seq::<Seq<char>>::empty()) =~= Seq::<Seq<char>>::empty());
    assert(seq![owner].last() == owner);
    assert(non_empty(seq![owner]) =~= seq![owner]);
    assert(seq![owner, repo].last() == repo);
    assert(non_empty(seq![owner, repo]) =~= seq![owner, repo]);
    assert(trim_end_pat(repo, ".git"@) == repo);
}

/// A path `owner/repo` with plain names parses to that owner and repo and
/// no reference, once the spec around it has been taken off.
proof fn lemma_parse_plain_path(s: Seq<char>, owner: Seq<char>, repo: Seq<char>)
    requires
        owner.len() > 0,
        repo.len() > 0,
        plain_name(owner),
        plain_name(repo),
        !".git"@.is_suffix_of(repo),
        s.len() > 0,
        trim(s) == s,
        trim_end_char(s, '/') == s,
        spec_path(s) == Ok::<Seq<char>, GitHubSpecError>(owner + seq!['/'] + repo),
    ensures
        spec_parse_github(s) == Ok::<GitHubSpecView, GitHubSpecError>(
            GitHubSpecView { owner, repo, reference: None },
        ),
{
    reveal_strlit(".git");
    reveal_strlit("tree");
    reveal_strlit("commit");
    reveal_strlit("archive");
    let rest = owner + seq!['/'] + repo;
    lemma_split_two(owner, repo);
    assert(spec_split_url_tree(rest) == (rest, None::<Seq<char>>));
    assert forall|j: int| 0 <= j < rest.len() implies rest[j] != '@' by {
        if j < owner.len() {
            assert(rest[j] == owner[j]);
        } else if j > owner.len() {
            assert(rest[j] == repo[j - owner.len() - 1]);
        }
    }
    lemma_index_of_at(rest, '@', rest.len() as int);
    assert(rest.take(rest.len() as int) =~= rest);
    assert(seq![owner, repo].drop_last() =~= seq![owner]);
    assert(seq![owner].drop_last() =~= Seq::<Seq<char>>::empty());
    assert(non_empty(Seq::<Seq<char>>::empty()) =~= Seq::<Seq<char>>::empty());
    assert(seq![owner].last() == owner);
    assert(non_empty(seq![owner]) =~= seq![owner]);
    assert(seq![owner, repo].last() == repo);
    assert(non_empty(seq![owner, repo]) =~= seq![owner, repo]);
    assert(trim_end_pat(repo, ".git"@) == repo);
}

proof fn lemma_no_colon_prefix(p: Seq<char>, s: Seq<char>, k: int)
    requires
        0 <= k < p.len(),
        p[k] == ':',
        forall|i: int| 0 <= i < s.len() ==> s[i] != ':',
    ensures
        !p.is_prefix_of(s),
{
    if p.is_prefix_of(s) {
        assert(s.subrange(0, p.len() as int)[k] == s[k]);
    }
}

/// A piece without `/` that starts `owner/repo` starts `owner`.
proof fn lemma_prefix_of_owner(p: Seq<char>, owner: Seq<char>, repo: Seq<char>)
    requires
        forall|i: int| 0 <= i < p.len() ==> p[i] != '/',
        p.is_prefix_of(owner + seq!['/'] + repo),
    ensures
        p.is_prefix_of(owner),
{
    let s = owner + seq!['/'] + repo;
    if owner.len() < p.len() {
        assert(s.subrange(0, p.len() as int)[owner.len() as int] == s[owner.len() as int]);
    } else {
        assert forall|i: int| 0 <= i < p.len() implies p[i] == owner[i] by {
            assert(s.subrange(0, p.len() as int)[i] == s[i]);
        }
        assert(owner.subrange(0, p.len() as int) =~= p);
    }
}

/// `owner/repo` plain names with no URL-like start: `www.` or `github.com`.
pub open spec fn bare_owner(owner: Seq<char>) -> bool {
    !"www."@.is_prefix_of(owner) && !"github.com"@.is_prefix_of(owner)
}

proof fn lemma_plain_rest(owner: Seq<char>, repo: Seq<char>)
    requires
        owner.len() > 0,
        repo.len() > 0,
        plain_name(owner),
        plain_name(repo),
    ensures
        forall|i: int|
            0 <= i < (owner + seq!['/'] + repo).len() ==> (#[trigger] (owner + seq!['/'] + repo)[i]) != ':'
                && ((owner + seq!['/'] + repo)[i] == '/' ==> i == owner.len()),
        !is_ws((owner + seq!['/'] + repo)[0]),
        (owner + seq!['/'] + repo)[0] != '/',
        !is_ws((owner + seq!['/'] + repo).last()),
        (owner + seq!['/'] + repo).last() != '/',
{
    let rest = owner + seq!['/'] + repo;
    assert forall|i: int| 0 <= i < rest.len() implies #[trigger] rest[i] != ':' && (rest[i] == '/' ==> i
        == owner.len()) by {
        if i < owner.len() {
            assert(rest[i] == owner[i]);
        } else if i > owner.len() {
            assert(rest[i] == repo[i - owner.len() - 1]);
        }
    }
    assert(rest[0] == owner[0]);
    assert(rest.last() == repo[repo.len() - 1]);
}

proof fn lemma_bare_form(owner: Seq<char>, repo: Seq<char>)
    requires
        owner.len() > 0,
        repo.len() > 0,
        plain_name(owner),
        plain_name(repo),
        !".git"@.is_suffix_of(repo),
        bare_owner(owner),
    ensures
        spec_parse_github(owner + "/"@ + repo) == Ok::<GitHubSpecView, GitHubSpecError>(
            GitHubSpecView { owner, repo, reference: None },
        ),
{
    reveal_strlit("/");
    reveal_strlit("https://");
    reveal_strlit("http://");
    reveal_strlit("www.");
    reveal_strlit("github.com/");
    reveal_strlit("github.com");
    reveal_strlit("github:");
    reveal_strlit("://");
    let rest = owner + seq!['/'] + repo;
    assert(owner + "/"@ + repo =~= rest);
    lemma_plain_rest(owner, repo);
    lemma_no_colon_prefix("https://"@, rest, 5);
    lemma_no_colon_prefix("http://"@, rest, 4);
    lemma_no_colon_prefix("github:"@, rest, 6);
    if "www."@.is_prefix_of(rest) {
        lemma_prefix_of_owner("www."@, owner, repo);
    }
    if "github.com"@.is_prefix_of(rest) {
        lemma_prefix_of_owner("github.com"@, owner, repo);
    }
    if "github.com/"@.is_prefix_of(rest) {
        assert("github.com"@.is_prefix_of(rest)) by {
            assert(rest.subrange(0, 10) =~= "github.com/"@.subrange(0, 10));
        }
        lemma_prefix_of_owner("github.com"@, owner, repo);
    }
    assert(!contains_seq(rest, "://"@)) by {
        if contains_seq(rest, "://"@) {
            let i = choose|i: int| 0 <= i <= rest.len() - 3 && #[trigger] rest.subrange(i, i + 3) == "://"@;
            assert(rest.subrange(i, i + 3)[0] == rest[i]);
        }
    }
    lemma_not_prefix("/"@, rest, 0);
    assert(trim(rest) == rest);
    assert(trim_end_char(rest, '/') == rest);
    assert(spec_path(rest) == Ok::<Seq<char>, GitHubSpecError>(rest));
    lemma_parse_plain_path(rest, owner, repo);
}

proof fn lemma_github_com_form(owner: Seq<char>, repo: Seq<char>)
    requires
        owner.len() > 0,
        repo.len() > 0,
        plain_name(owner),
        plain_name(repo),
        !".git"@.is_suffix_of(repo),
    ensures
        spec_parse_github("github.com/"@ + owner + "/"@ + repo) == Ok::<GitHubSpecView, GitHubSpecError>(
            GitHubSpecView { owner, repo, reference: None },
        ),
{
    reveal_strlit("/");
    reveal_strlit("https://");
    reveal_strlit("http://");
    reveal_strlit("www.");
    reveal_strlit("github.com/");
    let rest = owner + seq!['/'] + repo;
    lemma_plain_rest(owner, repo);
    let a = "github.com/"@ + rest;
    assert("github.com/"@ + owner + "/"@ + repo =~= a);
    assert(!is_ws(a[0]));
    assert(a.last() == rest.last());
    lemma_not_prefix("https://"@, a, 0);
    lemma_not_prefix("http://"@, a, 0);
    lemma_not_prefix("www."@, a, 0);
    lemma_not_prefix("/"@, rest, 0);
    assert("github.com/"@.is_prefix_of(a));
    assert(a.skip(11) =~= rest);
    assert(trim(a) == a);
    assert(trim_end_char(a, '/') == a);
    assert(spec_path(a) == Ok::<Seq<char>, GitHubSpecError>(rest));
    lemma_parse_plain_path(a, owner, repo);
}

proof fn lemma_https_form(owner: Seq<char>, repo: Seq<char>)
    requires
        owner.len() > 0,
        repo.len() > 0,
        plain_name(owner),
        plain_name(repo),
        !".git"@.is_suffix_of(repo),
    ensures
        spec_parse_github("https://github.com/"@ + owner + "/"@ + repo) == Ok::<
            GitHubSpecView,
            GitHubSpecError,
        >(GitHubSpecView { owner, repo, reference: None }),
{
    reveal_strlit("/");
    reveal_strlit("https://");
    reveal_strlit("www.");
    reveal_strlit("github.com/");
    reveal_strlit("https://github.com/");
    let rest = owner + seq!['/'] + repo;
    lemma_plain_rest(owner, repo);
    let a = "github.com/"@ + rest;
    let b = "https://github.com/"@ + rest;
    assert("https://github.com/"@ + owner + "/"@ + repo =~= b);
    assert(!is_ws(b[0]));
    assert(b.last() == rest.last());
    assert("https://"@.is_prefix_of(b));
    assert(b.skip(8) =~= a);
    lemma_not_prefix("www."@, a, 0);
    lemma_not_prefix("/"@, rest, 0);
    assert("github.com/"@.is_prefix_of(a));
    assert(a.skip(11) =~= rest);
    assert(trim(b) == b);
    assert(trim_end_char(b, '/') == b);
    assert(spec_path(b) == Ok::<Seq<char>, GitHubSpecError>(rest));
    lemma_parse_plain_path(b, owner, repo);
}

/// A repository named as `owner/repo`, as `github.com/owner/repo` or as
/// `https://github.com/owner/repo` is the same repository: each parses to
/// that owner and repo, with no reference. (The two URL forms need no
/// condition on the owner; the bare form needs an owner that does not look
/// like a host.)
pub proof fn github_forms_agree(owner: Seq<char>, repo: Seq<char>)
    requires
        owner.len() > 0,
        repo.len() > 0,
        plain_name(owner),
        plain_name(repo),
        !".git"@.is_suffix_of(repo),
    ensures
        spec_parse_github("github.com/"@ + owner + "/"@ + repo) == Ok::<GitHubSpecView, GitHubSpecError>(
            GitHubSpecView { owner, repo, reference: None },
        ),
        spec_parse_github("https://github.com/"@ + owner + "/"@ + repo) == Ok::<
            GitHubSpecView,
            GitHubSpecError,
        >(GitHubSpecView { owner, repo, reference: None }),
        bare_owner(owner) ==> spec_parse_github(owner + "/"@ + repo) == Ok::<GitHubSpecView, GitHubSpecError>(
            GitHubSpecView { owner, repo, reference: None },
        ),
{
    lemma_github_com_form(owner, repo);
    lemma_https_form(owner, repo);
    if bare_owner(owner) {
        lemma_bare_form(owner, repo);
    }
}

} // verus!
