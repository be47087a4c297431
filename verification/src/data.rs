//! The lifecycle data model: a repository's progress through the pipeline,
//! represented as a ladder of record types, each embedding its predecessor.

use vstd::prelude::*;
use crate::list::ListError;
use crate::strutil::{
    first_at, has_prefix, host_run_end, last_at, lower, word_run_end, find_char_from, rfind_char,
    scan_host_run, scan_word_run, str_eq_lowered, str_has_prefix,
};

verus! {

/// How a repository is reached when cloning: over SSH or over HTTPS.
#[derive(Clone, Copy, Debug, PartialEq, Eq, Structural)]
pub enum CloneMode {
    Ssh,
    Https,
}

/// Splits `s` after position `beg` into the two non-empty segments around a
/// single separating slash; fails when the tail holds no slash, a slash at
/// either end, or more than one slash.
pub open spec fn parse_url_at(s: Seq<char>, beg: int) -> Option<(Seq<char>, Seq<char>)> {
    let k = first_at(s, '/', beg);
    if k < s.len() && beg < k && k + 1 < s.len() && first_at(s, '/', k + 1) == s.len() {
        Some((s.subrange(beg, k), s.subrange(k + 1, s.len() as int)))
    } else {
        None
    }
}

/// Owner and name of a full repository URL of the form
/// `http(s)://github.com/<owner>/<name>`.
pub open spec fn parse_github_url(s: Seq<char>) -> Option<(Seq<char>, Seq<char>)> {
    if has_prefix(s, "https://github.com/"@) {
        parse_url_at(s, "https://github.com/"@.len() as int)
    } else if has_prefix(s, "http://github.com/"@) {
        parse_url_at(s, "http://github.com/"@.len() as int)
    } else {
        None
    }
}

/// Owner and name of an `owner/name` shorthand: the split is at the last
/// slash, and both parts must be non-empty.
pub open spec fn parse_simple(s: Seq<char>) -> Option<(Seq<char>, Seq<char>)> {
    let k = last_at(s, '/');
    if 1 <= k && k + 1 < s.len() {
        Some((s.subrange(0, k), s.subrange(k + 1, s.len() as int)))
    } else {
        None
    }
}

/// One line of a repository list: a full URL form if it matches, otherwise
/// the `owner/name` shorthand.
pub open spec fn parse_repo_line(s: Seq<char>) -> Option<(Seq<char>, Seq<char>)> {
    match parse_github_url(s) {
        Some(p) => Some(p),
        None => parse_simple(s),
    }
}

/// An SSH-style remote: a user, `@`, a host of word characters and dots,
/// then `:` and anything.
pub open spec fn ssh_like(s: Seq<char>) -> bool {
    let a = word_run_end(s, 0);
    &&& a >= 1
    &&& a < s.len()
    &&& s[a] == '@'
    &&& {
        let b = host_run_end(s, a + 1);
        &&& b > a + 1
        &&& b < s.len()
        &&& s[b] == ':'
    }
}

/// The clone mode a remote URL implies: HTTP-looking URLs are HTTPS,
/// SSH-style remotes are SSH, anything else is unrecognised.
pub open spec fn mode_from_url(s: Seq<char>) -> Option<CloneMode> {
    if has_prefix(s, "http"@) {
        Some(CloneMode::Https)
    } else if ssh_like(s) {
        Some(CloneMode::Ssh)
    } else {
        None
    }
}

/// The clone mode a command-line flag selects: `https` or `http` in any
/// letter case means HTTPS, everything else SSH.
pub open spec fn mode_of_flag(s: Seq<char>) -> CloneMode {
    if lower(s) == "https"@ || lower(s) == "http"@ {
        CloneMode::Https
    } else {
        CloneMode::Ssh
    }
}

impl CloneMode {
    /// The clone mode a remote URL implies, if it is recognised.
    pub fn from_url(url: &str) -> (r: Option<CloneMode>)
        ensures
            r == mode_from_url(url@),
    {
        if str_has_prefix(url, "http") {
            Some(CloneMode::Https)
        } else {
            let n = url.unicode_len();
            let a = scan_word_run(url, 0);
            if a >= 1 && a < n && url.get_char(a) == '@' {
                let b = scan_host_run(url, a + 1);
                if b > a + 1 && b < n && url.get_char(b) == ':' {
                    Some(CloneMode::Ssh)
                } else {
                    None
                }
            } else {
                None
            }
        }
    }

    /// The clone mode a command-line flag selects.
    pub fn from_flag(value: &str) -> (m: CloneMode)
        ensures
            m == mode_of_flag(value@),
    {
        if str_eq_lowered(value, "https") || str_eq_lowered(value, "http") {
            CloneMode::Https
        } else {
            CloneMode::Ssh
        }
    }
}

/// Splits `s` after `beg` around a single slash; see `parse_url_at`.
fn split_from(s: &str, beg: usize) -> (r: Option<(String, String)>)
    requires
        beg <= s@.len(),
    ensures
        match r {
            Some(p) => parse_url_at(s@, beg as int) == Some((p.0@, p.1@)),
            None => parse_url_at(s@, beg as int) is None,
        },
{
    let n = s.unicode_len();
    let k = find_char_from(s, beg, '/');
    if k < n && k > beg && k + 1 < n {
        let k2 = find_char_from(s, k + 1, '/');
        if k2 == n {
            let owner = String::from_str(s.substring_char(beg, k));
            let name = String::from_str(s.substring_char(k + 1, n));
            Some((owner, name))
        } else {
            None
        }
    } else {
        None
    }
}

/// Identity of a repository: owning organisation, repository name, and the
/// branch that pull requests should target when it is not the default.
#[derive(Clone, Debug, PartialEq)]
pub struct RepoDefn {
    pub owner: String,
    pub name: String,
    pub main_branch_name: Option<String>,
}

/// Mathematical model of a `RepoDefn`.
pub ghost struct RepoDefnModel {
    pub owner: Seq<char>,
    pub name: Seq<char>,
    pub main_branch_name: Option<Seq<char>>,
}

impl View for RepoDefn {
    type V = RepoDefnModel;

    open spec fn view(&self) -> RepoDefnModel {
        RepoDefnModel {
            owner: self.owner@,
            name: self.name@,
            main_branch_name: self.main_branch_name.deep_view(),
        }
    }
}

impl RepoDefn {
    /// A URI suitable for cloning over SSH.
    pub fn clone_uri_ssh(&self) -> (r: String)
        ensures
            r@ == "git@github.com:"@ + self.owner@ + "/"@ + self.name@,
    {
        let mut s = String::new();
        s.append("git@github.com:");
        s.append(self.owner.as_str());
        s.append("/");
        s.append(self.name.as_str());
        proof {
            assert(s@ =~= "git@github.com:"@ + self.owner@ + "/"@ + self.name@);
        }
        s
    }

    /// A URI suitable for cloning over HTTPS.
    pub fn clone_uri_https(&self) -> (r: String)
        ensures
            r@ == "https://github.com/"@ + self.owner@ + "/"@ + self.name@,
    {
        let mut s = String::new();
        s.append("https://github.com/");
        s.append(self.owner.as_str());
        s.append("/");
        s.append(self.name.as_str());
        proof {
            assert(s@ =~= "https://github.com/"@ + self.owner@ + "/"@ + self.name@);
        }
        s
    }

    /// The clone URI for the given mode.
    pub fn clone_uri(&self, mode: CloneMode) -> (r: String)
        ensures
            mode is Ssh ==> r@ == "git@github.com:"@ + self.owner@ + "/"@ + self.name@,
            mode is Https ==> r@ == "https://github.com/"@ + self.owner@ + "/"@ + self.name@,
    {
        match mode {
            CloneMode::Ssh => self.clone_uri_ssh(),
            CloneMode::Https => self.clone_uri_https(),
        }
    }

    /// Parses one repository-list entry, either an `owner/name` shorthand or
    /// a full repository URL, into a fresh remote record.
    pub fn new(from: &str) -> (r: Result<RepoDefn, ListError>)
        ensures
            match parse_repo_line(from@) {
                Some(p) => r matches Ok(d) && d.owner@ == p.0 && d.name@ == p.1
                    && d.main_branch_name is None,
                None => r == Err::<RepoDefn, ListError>(ListError::InvalidLine),
            },
    {
        let n = from.unicode_len();
        let from_url: Option<(String, String)> = if str_has_prefix(from, "https://github.com/") {
            split_from(from, "https://github.com/".unicode_len())
        } else if str_has_prefix(from, "http://github.com/") {
            split_from(from, "http://github.com/".unicode_len())
        } else {
            None
        };
        match from_url {
            Some((owner, name)) => Ok(RepoDefn { owner, name, main_branch_name: None }),
            None => {
                match rfind_char(from, '/') {
                    Some(k) => {
                        if k >= 1 && k + 1 < n {
                            let owner = String::from_str(from.substring_char(0, k));
                            let name = String::from_str(from.substring_char(k + 1, n));
                            Ok(RepoDefn { owner, name, main_branch_name: None })
                        } else {
                            Err(ListError::InvalidLine)
                        }
                    },
                    None => Err(ListError::InvalidLine),
                }
            },
        }
    }
}

/// A repository that has been cloned to a local working directory, or whose
/// clone was attempted and failed (`last_error` set).
#[derive(Clone, Debug, PartialEq)]
pub struct LocalRepo {
    pub defn: RepoDefn,
    pub local_path: String,
    pub last_error: Option<String>,
}

/// Mathematical model of a `LocalRepo`.
pub ghost struct LocalRepoModel {
    pub defn: RepoDefnModel,
    pub local_path: Seq<char>,
    pub last_error: Option<Seq<char>>,
}

impl View for LocalRepo {
    type V = LocalRepoModel;

    open spec fn view(&self) -> LocalRepoModel {
        LocalRepoModel {
            defn: self.defn@,
            local_path: self.local_path@,
            last_error: self.last_error.deep_view(),
        }
    }
}

impl LocalRepo {
    /// Whether the clone that produced this record failed.
    pub fn is_failed(&self) -> (b: bool)
        ensures
            b == (self.last_error is Some),
    {
        self.last_error.is_some()
    }
}

/// A local repository to which the patch step has been applied. `success`
/// records whether the patch process exited cleanly; `changes` how many files
/// it touched; `output` its combined standard output and error text.
#[derive(Clone, Debug, PartialEq)]
pub struct PatchedRepo {
    pub repo: LocalRepo,
    pub changes: usize,
    pub output: String,
    pub success: bool,
}

/// Mathematical model of a `PatchedRepo`.
pub ghost struct PatchedRepoModel {
    pub repo: LocalRepoModel,
    pub changes: usize,
    pub output: Seq<char>,
    pub success: bool,
}

impl View for PatchedRepo {
    type V = PatchedRepoModel;

    open spec fn view(&self) -> PatchedRepoModel {
        PatchedRepoModel {
            repo: self.repo@,
            changes: self.changes,
            output: self.output@,
            success: self.success,
        }
    }
}

/// A patched repository on which a work branch has been created, together
/// with the idempotency flags of the later stages: `committed` and `pushed`
/// are set once those stages succeed and are never reset.
#[derive(Clone, Debug, PartialEq)]
pub struct BranchedRepo {
    pub patched: PatchedRepo,
    pub branch_name: String,
    pub committed: bool,
    pub pushed: bool,
    pub last_error: Option<String>,
}

/// Mathematical model of a `BranchedRepo`.
pub ghost struct BranchedRepoModel {
    pub patched: PatchedRepoModel,
    pub branch_name: Seq<char>,
    pub committed: bool,
    pub pushed: bool,
    pub last_error: Option<Seq<char>>,
}

impl View for BranchedRepo {
    type V = BranchedRepoModel;

    open spec fn view(&self) -> BranchedRepoModel {
        BranchedRepoModel {
            patched: self.patched@,
            branch_name: self.branch_name@,
            committed: self.committed,
            pushed: self.pushed,
            last_error: self.last_error.deep_view(),
        }
    }
}

/// A branched repository for which a pull request has been opened; `url`
/// locates the pull request.
#[derive(Clone, Debug, PartialEq)]
pub struct PRdRepo {
    pub branched: BranchedRepo,
    pub url: String,
}

/// Mathematical model of a `PRdRepo`.
pub ghost struct PRdRepoModel {
    pub branched: BranchedRepoModel,
    pub url: Seq<char>,
}

impl View for PRdRepo {
    type V = PRdRepoModel;

    open spec fn view(&self) -> PRdRepoModel {
        PRdRepoModel {
            branched: self.branched@,
            url: self.url@,
        }
    }
}

/// One repository's current position on the lifecycle ladder.
#[derive(Clone, Debug, PartialEq)]
pub enum DataElement {
    PRdRepo(PRdRepo),
    BranchedRepo(BranchedRepo),
    PatchedRepo(PatchedRepo),
    LocalRepo(LocalRepo),
    RemoteRepo(RepoDefn),
}

/// Mathematical model of a `DataElement`.
pub ghost enum DataElementModel {
    PRdRepo(PRdRepoModel),
    BranchedRepo(BranchedRepoModel),
    PatchedRepo(PatchedRepoModel),
    LocalRepo(LocalRepoModel),
    RemoteRepo(RepoDefnModel),
}

impl View for DataElement {
    type V = DataElementModel;

    open spec fn view(&self) -> DataElementModel {
        match self {
            DataElement::PRdRepo(r) => DataElementModel::PRdRepo(r@),
            DataElement::BranchedRepo(r) => DataElementModel::BranchedRepo(r@),
            DataElement::PatchedRepo(r) => DataElementModel::PatchedRepo(r@),
            DataElement::LocalRepo(r) => DataElementModel::LocalRepo(r@),
            DataElement::RemoteRepo(r) => DataElementModel::RemoteRepo(r@),
        }
    }
}

/// The collection of repositories a run works on, in a fixed order that every
/// stage pass preserves.
#[derive(Clone, Debug, PartialEq)]
pub struct BaseDataDefn {
    pub repos: Vec<DataElement>,
}

/// Mathematical model of a `BaseDataDefn`.
pub ghost struct BaseDataDefnModel {
    pub repos: Seq<DataElementModel>,
}

impl View for BaseDataDefn {
    type V = BaseDataDefnModel;

    open spec fn view(&self) -> BaseDataDefnModel {
        BaseDataDefnModel { repos: self.repos@.map_values(|e: DataElement| e@) }
    }
}

/// The whole persisted unit: the repositories plus the optional title and
/// description to use when opening pull requests.
#[derive(Clone, Debug, PartialEq)]
pub struct BaseStateDefn {
    pub data: BaseDataDefn,
    pub pr_description: Option<String>,
    pub pr_title: Option<String>,
}

/// Mathematical model of a `BaseStateDefn`.
pub ghost struct BaseStateDefnModel {
    pub data: BaseDataDefnModel,
    pub pr_description: Option<Seq<char>>,
    pub pr_title: Option<Seq<char>>,
}

impl View for BaseStateDefn {
    type V = BaseStateDefnModel;

    open spec fn view(&self) -> BaseStateDefnModel {
        BaseStateDefnModel {
            data: self.data@,
            pr_description: self.pr_description.deep_view(),
            pr_title: self.pr_title.deep_view(),
        }
    }
}

/// A fresh, empty batch state: no repositories, default pull-request text.
pub fn empty_state() -> (r: BaseStateDefn)
    ensures
        r.data.repos@.len() == 0,
        r.pr_description is None,
        r.pr_title is None,
{
    BaseStateDefn {
        data: BaseDataDefn { repos: Vec::new() },
        pr_description: None,
        pr_title: None,
    }
}

/// Application configuration consumed by the credential-resolution
/// collaborator: an access token and an SSH key path, both optional.
#[derive(Clone, Debug, PartialEq)]
pub struct ConfigFile {
    pub github_access_token: Option<String>,
    pub git_ssh_key_path: Option<String>,
}

} // verus!
