//! Repository identity: host, owner and name, and how they are read out of
//! the URL shapes a hosting provider uses.

use vstd::prelude::*;

verus! {

use vstd::string::StringExecFns;

/// The identity of a hosted repository.
#[derive(Debug, Clone)]
pub struct RepoInfo {
    pub domain: String,
    pub owner: String,
    pub repo: String,
}

impl PartialEq for RepoInfo {
    fn eq(&self, other: &RepoInfo) -> bool {
        self.domain == other.domain && self.owner == other.owner && self.repo == other.repo
    }
}

impl vstd::std_specs::cmp::PartialEqSpecImpl for RepoInfo {
    open spec fn obeys_eq_spec() -> bool {
        true
    }

    open spec fn eq_spec(&self, other: &RepoInfo) -> bool {
        self.domain@ == other.domain@ && self.owner@ == other.owner@ && self.repo@ == other.repo@
    }
}

/// What the named groups `domain`, `owner` and `repo` of `pattern` capture
/// in `url`, if the pattern matches at all. The capture is a function of
/// the pattern and the text alone.
pub uninterp spec fn url_capture(pattern: Seq<char>, url: Seq<char>) -> Option<
    (Seq<char>, Seq<char>, Seq<char>),
>;

/// The pattern for `https://` URLs of the hosting provider.
pub open spec fn https_url_pattern() -> Seq<char> {
    "^https?://(?P<domain>github\\.com)/(?P<owner>.*?)/(?P<repo>.*?)(/?|(?:\\.git))$"@
}

/// The pattern for `git@` URLs of the hosting provider.
pub open spec fn git_url_pattern() -> Seq<char> {
    "^git@(?P<domain>github\\.com):(?P<owner>.*?)/(?P<repo>.*?)(?:\\.git)?$"@
}

/// The pattern for `ssh://` URLs of the hosting provider.
pub open spec fn ssh_url_pattern() -> Seq<char> {
    "^ssh://git@(?P<domain>github\\.com)(?::22)?/(?P<owner>.*?)/(?P<repo>.*?)(?:\\.git)$"@
}

/// The three URL shapes, tried in order; the first match decides.
pub open spec fn parse_url_spec(url: Seq<char>) -> Option<(Seq<char>, Seq<char>, Seq<char>)> {
    if url_capture(https_url_pattern(), url) is Some {
        url_capture(https_url_pattern(), url)
    } else if url_capture(git_url_pattern(), url) is Some {
        url_capture(git_url_pattern(), url)
    } else if url_capture(ssh_url_pattern(), url) is Some {
        url_capture(ssh_url_pattern(), url)
    } else {
        None
    }
}

/// Relies on regex::Regex::new, regex::Regex::captures and
/// regex::Captures::name: whether the pattern matches `url` and what its
/// named groups `domain`, `owner` and `repo` capture is a function of the
/// pattern and the text alone; that capture is named [`url_capture`].
#[verifier::external_body]
fn parse_with_regex(pattern: &str, url: &str) -> (r: Option<RepoInfo>)
    ensures
        (match r {
            Some(info) => url_capture(pattern@, url@) == Some(
                (info.domain@, info.owner@, info.repo@),
            ),
            None => url_capture(pattern@, url@) is None,
        }),
{
    let re = match regex::Regex::new(pattern) {
        Ok(re) => re,
        Err(_) => return None,
    };
    let caps = re.captures(url)?;
    let domain = caps.name("domain")?.as_str().to_owned();
    let owner = caps.name("owner")?.as_str().to_owned();
    let repo = caps.name("repo")?.as_str().to_owned();
    Some(RepoInfo { domain, owner, repo })
}

impl RepoInfo {
    /// A repository identity from its three parts.
    pub fn new(domain: &str, owner: &str, repo: &str) -> (r: RepoInfo)
        ensures
            r.domain@ == domain@,
            r.owner@ == owner@,
            r.repo@ == repo@,
    {
        RepoInfo { domain: domain.to_owned(), owner: owner.to_owned(), repo: repo.to_owned() }
    }

    /// `domain/owner/repo`.
    pub fn fully_qualified_name(&self) -> (r: String)
        ensures
            r@ == self.domain@ + "/"@ + self.owner@ + "/"@ + self.repo@,
    {
        let mut r = self.domain.clone();
        r.append("/");
        r.append(self.owner.as_str());
        r.append("/");
        r.append(self.repo.as_str());
        r
    }

    /// `owner/repo`.
    pub fn name_with_owner(&self) -> (r: String)
        ensures
            r@ == self.owner@ + "/"@ + self.repo@,
    {
        let mut r = self.owner.clone();
        r.append("/");
        r.append(self.repo.as_str());
        r
    }

    /// Reads a repository identity out of a URL, trying the `https://`,
    /// `git@` and `ssh://` shapes in that order.
    pub fn parse_url(url: &str) -> (r: Option<RepoInfo>)
        ensures
            (match r {
                Some(info) => parse_url_spec(url@) == Some(
                    (info.domain@, info.owner@, info.repo@),
                ),
                None => parse_url_spec(url@) is None,
            }),
    {
        if let Some(info) = parse_with_regex(
            "^https?://(?P<domain>github\\.com)/(?P<owner>.*?)/(?P<repo>.*?)(/?|(?:\\.git))$",
            url,
        ) {
            return Some(info);
        }
        if let Some(info) = parse_with_regex(
            "^git@(?P<domain>github\\.com):(?P<owner>.*?)/(?P<repo>.*?)(?:\\.git)?$",
            url,
        ) {
            return Some(info);
        }
        if let Some(info) = parse_with_regex(
            "^ssh://git@(?P<domain>github\\.com)(?::22)?/(?P<owner>.*?)/(?P<repo>.*?)(?:\\.git)$",
            url,
        ) {
            return Some(info);
        }
        None
    }
}

} // verus!
