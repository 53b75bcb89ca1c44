//! The tool's configuration: where the workspace lives, who the user is,
//! and the shell shim name. Reading and writing the configuration file is
//! input/output and happens outside the library; the paths derived from a
//! configuration are computed and specified here.

use vstd::prelude::*;

verus! {

use vstd::string::StringExecFns;

/// The configuration, as the configuration file declares it.
pub struct Config {
    pub core: Core,
    pub github: GitHub,
    pub shell: Option<Shell>,
}

pub struct Core {
    pub base_dir: String,
    pub editor: Option<String>,
}

pub struct GitHub {
    pub username: String,
    pub query: Option<String>,
    pub queries: Option<Vec<String>>,
}

pub struct Shell {
    pub cd_shims: Option<String>,
}

/// A path that needs no tilde expansion: empty, or not starting with `~`.
pub open spec fn no_tilde(s: Seq<char>) -> bool {
    s.len() == 0 || s[0] != '~'
}

/// Relies on shellexpand::tilde: an input that does not start with a tilde
/// comes back unchanged; a leading tilde is replaced by the home directory,
/// which depends on the environment.
#[verifier::external_body]
fn tilde_expand(s: &str) -> (r: String)
    ensures
        no_tilde(s@) ==> r@ == s@,
{
    shellexpand::tilde(s).to_string()
}

/// The paths a configuration determines. The workspace root comes from the
/// configured base directory after tilde expansion, so each contract pins
/// the result whenever that directory has no leading tilde; an expanded
/// home directory depends on the environment and cannot be pinned here.
pub trait ConfigSupport {
    /// The configured base directory, before tilde expansion.
    spec fn base_dir_view(&self) -> Seq<char>;

    /// The configured shell shim name, if any.
    spec fn cd_shims_view(&self) -> Option<Seq<char>>;

    /// The workspace root.
    fn base_path(&self) -> (r: String)
        ensures
            no_tilde(self.base_dir_view()) ==> r@ == self.base_dir_view(),
    ;

    /// The root of the content-addressed store.
    fn repos_store_path(&self) -> (r: String)
        ensures
            no_tilde(self.base_dir_view()) ==> r@ == self.base_dir_view() + "/repo"@,
    ;

    /// Where a repository is stored: `<root>/repo/<domain>/<owner>/<repo>`.
    fn repo_store_path(&self, domain: &str, owner: &str, repo: &str) -> (r: String)
        ensures
            no_tilde(self.base_dir_view()) ==> r@ == self.base_dir_view() + "/repo/"@ + domain@
                + "/"@ + owner@ + "/"@ + repo@,
    ;

    /// Where a repository is exposed for work: `<root>/<repo>`.
    fn repo_work_path(&self, domain: &str, owner: &str, repo: &str) -> (r: String)
        ensures
            no_tilde(self.base_dir_view()) ==> r@ == self.base_dir_view() + "/"@ + repo@,
    ;

    /// The shell shim name, defaulting to `mucd`.
    fn resolve_cd_shims(&self) -> (r: String)
        ensures
            r@ == (match self.cd_shims_view() {
                Some(c) => c,
                None => "mucd"@,
            }),
    ;
}

impl ConfigSupport for Config {
    open spec fn base_dir_view(&self) -> Seq<char> {
        self.core.base_dir@
    }

    open spec fn cd_shims_view(&self) -> Option<Seq<char>> {
        match &self.shell {
            Some(shell) => match &shell.cd_shims {
                Some(c) => Some(c@),
                None => None,
            },
            None => None,
        }
    }

    fn base_path(&self) -> (r: String) {
        tilde_expand(self.core.base_dir.as_str())
    }

    fn repos_store_path(&self) -> (r: String) {
        let mut r = self.base_path();
        r.append("/repo");
        r
    }

    fn repo_store_path(&self, domain: &str, owner: &str, repo: &str) -> (r: String) {
        let mut r = self.base_path();
        r.append("/repo/");
        r.append(domain);
        r.append("/");
        r.append(owner);
        r.append("/");
        r.append(repo);
        r
    }

    fn repo_work_path(&self, _domain: &str, _owner: &str, repo: &str) -> (r: String) {
        let mut r = self.base_path();
        r.append("/");
        r.append(repo);
        r
    }

    fn resolve_cd_shims(&self) -> (r: String) {
        match &self.shell {
            Some(shell) => match &shell.cd_shims {
                Some(c) => c.clone(),
                None => "mucd".to_owned(),
            },
            None => "mucd".to_owned(),
        }
    }
}

impl GitHub {
    /// Configuring both a single query and a query list is ambiguous.
    pub fn is_both_query_and_queries_set(&self) -> (r: bool)
        ensures
            r == (self.query is Some && self.queries is Some),
    {
        self.query.is_some() && self.queries.is_some()
    }

    /// The configured queries: the list when one is given, otherwise the
    /// single query alone, otherwise nothing.
    pub fn get_queries(&self) -> (r: Vec<String>)
        ensures
            (match &self.queries {
                Some(qs) => r.deep_view() == qs.deep_view(),
                None => match &self.query {
                    Some(q) => r.deep_view() == seq![q@],
                    None => r.deep_view() == Seq::<Seq<char>>::empty(),
                },
            }),
    {
        match &self.queries {
            Some(qs) => qs.clone(),
            None => match &self.query {
                Some(q) => {
                    let mut r: Vec<String> = Vec::new();
                    r.push(q.clone());
                    proof {
                        assert(r.deep_view() =~= seq![q@]);
                    }
                    r
                },
                None => {
                    let r: Vec<String> = Vec::new();
                    proof {
                        assert(r.deep_view() =~= Seq::<Seq<char>>::empty());
                    }
                    r
                },
            },
        }
    }
}

/// The error that refuses to overwrite a configuration file that already
/// exists.
pub fn already_initialized_error() -> (e: crate::mure_error::Error)
    ensures
        e@ == crate::mure_error::ErrorModel::Message("config file already exists"@),
{
    crate::mure_error::Error::from_str("config file already exists")
}

/// The configuration a fresh installation starts from.
pub fn default_config() -> (c: Config)
    ensures
        c.core.base_dir@ == "~/.dev"@,
        c.core.editor is None,
        c.github.username@ == ""@,
        c.github.query is None,
        c.github.queries is None,
        (c.shell matches Some(shell) && shell.cd_shims matches Some(s) && s@ == "mucd"@),
{
    Config {
        core: Core { base_dir: "~/.dev".to_owned(), editor: None },
        github: GitHub { username: "".to_owned(), query: None, queries: None },
        shell: Some(Shell { cd_shims: Some("mucd".to_owned()) }),
    }
}

} // verus!
