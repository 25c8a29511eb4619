use vstd::prelude::*;

use crate::error::ReqError;

verus! {

/// `p` occurs in `s` starting at index `i`.
pub open spec fn occurs_at(s: Seq<char>, p: Seq<char>, i: int) -> bool {
    0 <= i && i + p.len() <= s.len() && s.subrange(i, i + p.len()) == p
}

/// The first index at or after `i` where `p` occurs in `s`, or `s.len()` when
/// there is none.
pub open spec fn first_occurrence(s: Seq<char>, p: Seq<char>, i: int) -> int
    decreases s.len() - i,
{
    if i < 0 || i >= s.len() {
        s.len() as int
    } else if occurs_at(s, p, i) {
        i
    } else {
        first_occurrence(s, p, i + 1)
    }
}

/// The first index at or after `i` that holds `c`, or `s.len()` when there is none.
pub open spec fn first_char(s: Seq<char>, c: char, i: int) -> int
    decreases s.len() - i,
{
    if i < 0 || i >= s.len() {
        s.len() as int
    } else if s[i] == c {
        i
    } else {
        first_char(s, c, i + 1)
    }
}

/// `p` occurs somewhere in `s`.
pub open spec fn contains(s: Seq<char>, p: Seq<char>) -> bool {
    first_occurrence(s, p, 0) < s.len()
}

pub open spec fn scheme_separator() -> Seq<char> {
    seq![':', '/', '/']
}

/// The URL has an explicit scheme (`https://`, `ssh://`, ...), as opposed to
/// the `user@host:path` form.
pub open spec fn has_scheme(u: Seq<char>) -> bool {
    contains(u, scheme_separator())
}

/// What follows the scheme separator, or the whole URL when there is none.
pub open spec fn after_scheme(u: Seq<char>) -> Seq<char> {
    let k = first_occurrence(u, scheme_separator(), 0);
    if k < u.len() {
        u.subrange(k + 3, u.len() as int)
    } else {
        u
    }
}

/// Drops a `user@` (or `user:password@`) that comes before the first `/`.
pub open spec fn after_userinfo(a: Seq<char>) -> Seq<char> {
    let at = first_char(a, '@', 0);
    let slash = first_char(a, '/', 0);
    if at < slash {
        a.subrange(at + 1, a.len() as int)
    } else {
        a
    }
}

/// The host, then everything after it.
pub open spec fn authority(u: Seq<char>) -> Seq<char> {
    after_userinfo(after_scheme(u))
}

pub open spec fn min_int(a: int, b: int) -> int {
    if a <= b {
        a
    } else {
        b
    }
}

/// The host of a remote URL: what stands between scheme and user on the left
/// and the first `:` or `/` on the right.
pub open spec fn host_of(u: Seq<char>) -> Seq<char> {
    let r = authority(u);
    r.subrange(0, min_int(first_char(r, ':', 0), first_char(r, '/', 0)))
}

pub open spec fn git_suffix() -> Seq<char> {
    seq!['.', 'g', 'i', 't']
}

/// `p` without a trailing `.git`.
pub open spec fn strip_git_suffix(p: Seq<char>) -> Seq<char> {
    if p.len() >= 4 && p.subrange(p.len() - 4, p.len() as int) == git_suffix() {
        p.subrange(0, p.len() - 4)
    } else {
        p
    }
}

/// The repository path of a remote URL (`owner/repo`): what follows the host's
/// `/` (with a scheme) or `:` (in the `user@host:path` form), without `.git`.
pub open spec fn repo_path_of(u: Seq<char>) -> Seq<char> {
    let r = authority(u);
    let sep = if has_scheme(u) {
        '/'
    } else {
        ':'
    };
    let k = first_char(r, sep, 0);
    if k < r.len() {
        strip_git_suffix(r.subrange(k + 1, r.len() as int))
    } else {
        Seq::empty()
    }
}

/// A hosting provider that the library can talk to.
#[derive(Debug, Clone, Copy, PartialEq, Eq)]
pub enum Provider {
    GitLab,
    GitHub,
}

pub open spec fn gitlab_signature() -> Seq<char> {
    seq!['g', 'i', 't', 'l', 'a', 'b']
}

pub open spec fn github_signature() -> Seq<char> {
    seq!['g', 'i', 't', 'h', 'u', 'b']
}

/// The provider whose signature the host of `u` carries: GitLab first, then
/// GitHub; none when the host carries neither.
pub open spec fn detected_provider(u: Seq<char>) -> Option<Provider> {
    let h = host_of(u);
    if contains(h, gitlab_signature()) {
        Some(Provider::GitLab)
    } else if contains(h, github_signature()) {
        Some(Provider::GitHub)
    } else {
        None
    }
}

/// The characters of `s`, one per element.
pub fn chars_of(s: &str) -> (r: Vec<char>)
    ensures
        r@ == s@,
{
    let n = s.unicode_len();
    let mut r: Vec<char> = Vec::new();
    let mut i: usize = 0;
    while i < n
        invariant
            n == s@.len(),
            i <= n,
            r@ == s@.subrange(0, i as int),
        decreases n - i,
    {
        r.push(s.get_char(i));
        i = i + 1;
    }
    assert(r@ =~= s@);
    r
}

/// Whether `p` occurs in `s` at index `i`.
fn occurs_at_exec(s: &Vec<char>, p: &Vec<char>, i: usize) -> (r: bool)
    ensures
        r == occurs_at(s@, p@, i as int),
{
    if i > s.len() || p.len() > s.len() - i {
        return false;
    }
    let mut j: usize = 0;
    while j < p.len()
        invariant
            i + p@.len() <= s@.len(),
            s@.len() <= usize::MAX,
            j <= p@.len(),
            forall|k: int| 0 <= k < j ==> s@[i + k] == p@[k],
        decreases p@.len() - j,
    {
        if s[i + j] != p[j] {
            assert(s@.subrange(i as int, i + p@.len())[j as int] != p@[j as int]);
            return false;
        }
        j = j + 1;
    }
    assert(s@.subrange(i as int, i + p@.len()) =~= p@);
    true
}

/// The first index at or after `from` where `p` occurs in `s`, or `s.len()`.
pub fn find_seq(s: &Vec<char>, p: &Vec<char>, from: usize) -> (r: usize)
    requires
        from <= s@.len(),
    ensures
        from <= r <= s@.len(),
        r < s@.len() ==> occurs_at(s@, p@, r as int),
        r as int == first_occurrence(s@, p@, from as int),
{
    let mut i = from;
    while i < s.len()
        invariant
            from <= i <= s@.len(),
            first_occurrence(s@, p@, from as int) == first_occurrence(s@, p@, i as int),
        decreases s@.len() - i,
    {
        if occurs_at_exec(s, p, i) {
            return i;
        }
        i = i + 1;
    }
    i
}

/// The first index at or after `from` that holds `c`, or `s.len()`.
pub fn find_char(s: &Vec<char>, c: char, from: usize) -> (r: usize)
    requires
        from <= s@.len(),
    ensures
        from <= r <= s@.len(),
        r < s@.len() ==> s@[r as int] == c,
        r as int == first_char(s@, c, from as int),
{
    let mut i = from;
    while i < s.len()
        invariant
            from <= i <= s@.len(),
            first_char(s@, c, from as int) == first_char(s@, c, i as int),
        decreases s@.len() - i,
    {
        if s[i] == c {
            return i;
        }
        i = i + 1;
    }
    i
}

/// Where the host starts in `u` (after scheme and user).
fn authority_start(u: &Vec<char>) -> (r: usize)
    ensures
        r <= u@.len(),
        authority(u@) == u@.subrange(r as int, u@.len() as int),
{
    let sep = vec![':', '/', '/'];
    let k = find_seq(u, &sep, 0);
    let start = if k < u.len() {
        k + 3
    } else {
        0
    };
    assert(after_scheme(u@) =~= u@.subrange(start as int, u@.len() as int));
    let a = slice_from(u, start);
    let at = find_char(&a, '@', 0);
    let slash = find_char(&a, '/', 0);
    if at < slash {
        assert(after_userinfo(a@) =~= u@.subrange(start + at + 1, u@.len() as int));
        start + at + 1
    } else {
        start
    }
}

/// The elements of `u` from `start` on.
fn slice_from(u: &Vec<char>, start: usize) -> (r: Vec<char>)
    requires
        start <= u@.len(),
    ensures
        r@ == u@.subrange(start as int, u@.len() as int),
{
    let mut r: Vec<char> = Vec::new();
    let mut i = start;
    while i < u.len()
        invariant
            start <= i <= u@.len(),
            r@ == u@.subrange(start as int, i as int),
        decreases u@.len() - i,
    {
        r.push(u[i]);
        i = i + 1;
    }
    r
}

/// The host of a remote URL (see `host_of`).
pub fn host(url: &str) -> (r: String)
    ensures
        r@ == host_of(url@),
{
    let u = chars_of(url);
    let n = u.len();
    let start = authority_start(&u);
    let r = slice_from(&u, start);
    assert(start + r@.len() == u@.len() && u@.len() <= usize::MAX);
    let colon = find_char(&r, ':', 0);
    let slash = find_char(&r, '/', 0);
    let end = if colon <= slash {
        colon
    } else {
        slash
    };
    let h = url.substring_char(start, start + end);
    assert(h@ =~= host_of(url@));
    String::from_str(h)
}

/// The repository path of a remote URL (see `repo_path_of`).
pub fn repo_path(url: &str) -> (r: String)
    ensures
        r@ == repo_path_of(url@),
{
    let u = chars_of(url);
    let n = u.len();
    let sep_seq = vec![':', '/', '/'];
    let scheme = find_seq(&u, &sep_seq, 0) < u.len();
    let start = authority_start(&u);
    let r = slice_from(&u, start);
    let sep = if scheme {
        '/'
    } else {
        ':'
    };
    let k = find_char(&r, sep, 0);
    if k >= r.len() {
        return String::new();
    }
    let p = slice_from(&r, k + 1);
    assert(start + r@.len() == n);
    let n = p.len();
    let suffix = vec!['.', 'g', 'i', 't'];
    let end = if n >= 4 && occurs_at_exec(&p, &suffix, n - 4) {
        n - 4
    } else {
        n
    };
    proof {
        assert(suffix@ =~= git_suffix());
        if n >= 4 {
            assert(p@.subrange(n - 4, n as int) =~= p@.subrange(n - 4, n - 4 + suffix@.len()));
        }
    }
    let s = url.substring_char(start + k + 1, start + k + 1 + end);
    assert(s@ =~= repo_path_of(url@));
    String::from_str(s)
}

/// Which provider a remote URL points at, judged by its host: a host that
/// carries `gitlab` is GitLab, else one that carries `github` is GitHub, else
/// the remote is not recognised.
pub fn detect_provider(url: &str) -> (r: Result<Provider, ReqError>)
    ensures
        contains(host_of(url@), gitlab_signature()) ==> r == Ok::<Provider, ReqError>(Provider::GitLab),
        !contains(host_of(url@), gitlab_signature()) && contains(host_of(url@), github_signature())
            ==> r == Ok::<Provider, ReqError>(Provider::GitHub),
        !contains(host_of(url@), gitlab_signature()) && !contains(host_of(url@), github_signature())
            ==> r == Err::<Provider, ReqError>(ReqError::ProviderNotRecognized),
{
    let h = chars_of(host(url).as_str());
    let gitlab = vec!['g', 'i', 't', 'l', 'a', 'b'];
    let github = vec!['g', 'i', 't', 'h', 'u', 'b'];
    assert(gitlab@ =~= gitlab_signature());
    assert(github@ =~= github_signature());
    if find_seq(&h, &gitlab, 0) < h.len() {
        Ok(Provider::GitLab)
    } else if find_seq(&h, &github, 0) < h.len() {
        Ok(Provider::GitHub)
    } else {
        Err(ReqError::ProviderNotRecognized)
    }
}

} // verus!
