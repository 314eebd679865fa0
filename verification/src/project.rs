use crate::errors::DeliveryError;
use crate::errors::ErrorView;
use crate::errors::Kind;
use crate::text::contains;
use crate::text::contains_line;
use crate::text::has_line;
use crate::text::is_substring;
use crate::text::same_text;
use crate::utils::Candidate;
use crate::utils::file_needs_updated;
use crate::utils::find_first_existing;
use crate::utils::is_first_existing;
use crate::utils::md5_hex;
use crate::workflow::Event;
use vstd::prelude::*;
use vstd::string::StringExecFns;

verus! {

/// The name that selects GitHub.
pub const GITHUB: &'static str = "github";

/// The name that selects Bitbucket.
pub const BITBUCKET: &'static str = "bitbucket";

/// The branch on which custom content is staged for review.
pub const FEATURE_BRANCH: &'static str = "add-delivery-config";

/// What git says when the branch to create is there already.
pub const BRANCH_EXISTS: &'static str = "A branch named 'add-delivery-config' already exists";

/// The remote that GitHub projects push to.
pub const ORIGIN: &'static str = "origin";

/// What a GitHub provider with an empty attribute is refused with.
pub const MISSING_GITHUB_ATTRIBUTES: &'static str =
    "Missing Github Source Code Provider attributes, specify: repo-name, org-name and pipeline(default: master)";

/// What a Bitbucket provider with an empty attribute is refused with.
pub const MISSING_BITBUCKET_ATTRIBUTES: &'static str =
    "Missing Bitbucket Source Code Provider attributes, specify: repo-name, project-key and pipeline(default: master)";

/// The kind of an external source code provider.
#[derive(Debug, Clone, Copy, PartialEq, Eq, Structural)]
pub enum Type {
    Bitbucket,
    Github,
}

/// An external source code provider and what it takes to link a project to it.
#[derive(Debug, Clone)]
pub struct SourceCodeProvider {
    pub repo_name: String,
    pub organization: String,
    pub branch: String,
    pub verify_ssl: bool,
    pub kind: Type,
}

/// Where a custom build-cookbook generator comes from.
#[derive(Debug, Clone, Copy, PartialEq, Eq, Structural)]
pub enum CustomCookbookSource {
    /// A remote generator that the cache already holds.
    Cached,
    /// A generator on the local filesystem, copied into the cache.
    Disk,
    /// A remote generator, cloned into the cache.
    Git,
}

/// What a materializer does next.
#[derive(Debug, Clone, Copy, PartialEq, Eq, Structural)]
pub enum Turn {
    /// The resource is missing: create it.
    Act,
    /// The resource is there; `created` tells whether this run made it.
    Settled { created: bool },
    /// The resource could not be probed or made.
    Failed(Kind),
}

/// The texts of a list of strings.
pub open spec fn texts(v: Seq<String>) -> Seq<Seq<char>> {
    v.map_values(|s: String| s@)
}

/// The message for a provider of the given kind with an attribute missing.
pub open spec fn missing_attributes(kind: Type) -> Seq<char> {
    match kind {
        Type::Github => MISSING_GITHUB_ATTRIBUTES@,
        Type::Bitbucket => MISSING_BITBUCKET_ATTRIBUTES@,
    }
}

/// The kind of provider that a name selects, if any.
pub open spec fn type_named(name: Seq<char>) -> Option<Type> {
    if name == GITHUB@ {
        Some(Type::Github)
    } else if name == BITBUCKET@ {
        Some(Type::Bitbucket)
    } else {
        None
    }
}

/// The two provider names select the two kinds.
pub proof fn provider_names_differ()
    ensures
        type_named(GITHUB@) == Some(Type::Github),
        type_named(BITBUCKET@) == Some(Type::Bitbucket),
{
    reveal_strlit("github");
    reveal_strlit("bitbucket");
    assert(GITHUB@.len() == 6);
    assert(BITBUCKET@.len() == 9);
}

/// The rule of every materializer: a resource that is there is left alone, one
/// that is missing is created, and a failure is passed on. `acting` tells
/// whether the answer is that of the creation or that of the probe.
pub open spec fn settle(acting: bool, event: Event) -> Turn {
    match event {
        Event::Present => if acting {
            Turn::Failed(Kind::UnexpectedResponse)
        } else {
            Turn::Settled { created: false }
        },
        Event::Absent => if acting {
            Turn::Failed(Kind::UnexpectedResponse)
        } else {
            Turn::Act
        },
        Event::Done => if acting {
            Turn::Settled { created: true }
        } else {
            Turn::Failed(Kind::UnexpectedResponse)
        },
        Event::Failed(e) => Turn::Failed(e.kind),
        _ => Turn::Failed(Kind::UnexpectedResponse),
    }
}

/// The rule of the remote's materializer: as `settle`, but a remote that
/// points elsewhere is a failure and is not overwritten.
pub open spec fn settle_remote(acting: bool, event: Event) -> Turn {
    match event {
        Event::Mismatch => if acting {
            Turn::Failed(Kind::UnexpectedResponse)
        } else {
            Turn::Failed(Kind::GitSetupFailed)
        },
        _ => settle(acting, event),
    }
}

impl SourceCodeProvider {
    /// All that is needed to link the project is there.
    pub open spec fn wf(&self) -> bool {
        &&& self.repo_name@.len() > 0
        &&& self.organization@.len() > 0
        &&& self.branch@.len() > 0
    }

    /// A provider of the kind that `scp` names. Fails with
    /// `UnknownProjectType` on another name, and with `OptionConstraint` where
    /// the repository, the organization or the branch is empty.
    pub fn new(scp: &str, repo: &str, org: &str, branch: &str, no_ssl: bool) -> (r: Result<
        SourceCodeProvider,
        DeliveryError,
    >)
        ensures
            match type_named(scp@) {
                None => r is Err && r->Err_0@ == (ErrorView {
                    kind: Kind::UnknownProjectType,
                    detail: None,
                }),
                Some(kind) => if repo@.len() == 0 || org@.len() == 0 || branch@.len() == 0 {
                    r is Err && r->Err_0@ == (ErrorView {
                        kind: Kind::OptionConstraint,
                        detail: Some(missing_attributes(kind)),
                    })
                } else {
                    &&& r is Ok
                    &&& r->Ok_0.wf()
                    &&& r->Ok_0.kind == kind
                    &&& r->Ok_0.repo_name@ == repo@
                    &&& r->Ok_0.organization@ == org@
                    &&& r->Ok_0.branch@ == branch@
                    &&& r->Ok_0.verify_ssl == !no_ssl
                },
            },
    {
        let scp_kind = if same_text(scp, GITHUB) {
            Type::Github
        } else if same_text(scp, BITBUCKET) {
            Type::Bitbucket
        } else {
            return Err(DeliveryError::bare(Kind::UnknownProjectType));
        };
        if repo.is_empty() || org.is_empty() || branch.is_empty() {
            let detail = match scp_kind {
                Type::Github => String::from_str(MISSING_GITHUB_ATTRIBUTES),
                Type::Bitbucket => String::from_str(MISSING_BITBUCKET_ATTRIBUTES),
            };
            return Err(DeliveryError::with_detail(Kind::OptionConstraint, detail));
        }
        Ok(
            SourceCodeProvider {
                kind: scp_kind,
                repo_name: String::from_str(repo),
                organization: String::from_str(org),
                branch: String::from_str(branch),
                verify_ssl: !no_ssl,
            },
        )
    }

    /// Whether the server has this provider's integration configured, given
    /// the configuration that the server returned for it: an empty one fails
    /// with `NoGithubSCPConfig` or `NoBitbucketSCPConfig`.
    pub fn verify_server_config(&self, scp_config: &str) -> (r: Result<(), DeliveryError>)
        ensures
            scp_config@.len() > 0 ==> r is Ok,
            scp_config@.len() == 0 ==> r is Err && r->Err_0@ == (ErrorView {
                kind: match self.kind {
                    Type::Github => Kind::NoGithubSCPConfig,
                    Type::Bitbucket => Kind::NoBitbucketSCPConfig,
                },
                detail: None,
            }),
    {
        if scp_config.is_empty() {
            match self.kind {
                Type::Github => Err(DeliveryError::bare(Kind::NoGithubSCPConfig)),
                Type::Bitbucket => Err(DeliveryError::bare(Kind::NoBitbucketSCPConfig)),
            }
        } else {
            Ok(())
        }
    }
}

/// The rule of every materializer, as `settle` has it.
fn materialize(acting: bool, event: &Event) -> (turn: Turn)
    ensures
        turn == settle(acting, *event),
{
    match event {
        Event::Present => if acting {
            Turn::Failed(Kind::UnexpectedResponse)
        } else {
            Turn::Settled { created: false }
        },
        Event::Absent => if acting {
            Turn::Failed(Kind::UnexpectedResponse)
        } else {
            Turn::Act
        },
        Event::Done => if acting {
            Turn::Settled { created: true }
        } else {
            Turn::Failed(Kind::UnexpectedResponse)
        },
        Event::Failed(e) => Turn::Failed(e.kind),
        _ => Turn::Failed(Kind::UnexpectedResponse),
    }
}

/// The pipeline's materializer: given whether the server has the pipeline, or
/// what came of creating it, says what to do next.
pub fn create_delivery_pipeline(acting: bool, event: &Event) -> (turn: Turn)
    ensures
        turn == settle(acting, *event),
{
    materialize(acting, event)
}

/// The server project's materializer: given whether the server has the
/// project, or what came of creating it, says what to do next.
pub fn create_delivery_project(acting: bool, event: &Event) -> (turn: Turn)
    ensures
        turn == settle(acting, *event),
{
    materialize(acting, event)
}

/// The initial push's materializer: history is pushed only where the
/// pipeline's branch has no commit upstream.
pub fn push_project_content_to_delivery(acting: bool, event: &Event) -> (turn: Turn)
    ensures
        turn == settle(acting, *event),
{
    materialize(acting, event)
}

/// The `delivery` remote's materializer: a remote that points elsewhere is
/// reported and left as it is.
pub fn create_delivery_remote_if_missing(acting: bool, event: &Event) -> (turn: Turn)
    ensures
        turn == settle_remote(acting, *event),
{
    match event {
        Event::Mismatch => if acting {
            Turn::Failed(Kind::UnexpectedResponse)
        } else {
            Turn::Failed(Kind::GitSetupFailed)
        },
        _ => materialize(acting, event),
    }
}

/// Reads the state of the `delivery` remote from the url that git has for it,
/// if any, and the url that it should have.
pub fn delivery_remote(configured: Option<&str>, delivery_git_ssh_url: &str) -> (event: Event)
    ensures
        event == (match configured {
            None => Event::Absent,
            Some(url) => if url@ == delivery_git_ssh_url@ {
                Event::Present
            } else {
                Event::Mismatch
            },
        }),
{
    match configured {
        None => Event::Absent,
        Some(url) => if same_text(url, delivery_git_ssh_url) {
            Event::Present
        } else {
            Event::Mismatch
        },
    }
}

/// Whether the `origin` remote is set up, given the remotes that git lists,
/// one on a line.
pub fn check_github_remote(remotes: &str) -> (present: bool)
    ensures
        present == has_line(remotes@, ORIGIN@),
{
    contains_line(remotes, ORIGIN)
}

/// Reads what came of creating the feature branch: a failure that says that
/// the branch exists is the one that a run recovers from.
pub fn create_feature_branch_if_missing(created: Result<(), DeliveryError>) -> (event: Event)
    ensures
        event == (match created {
            Ok(_) => Event::Done,
            Err(e) => match e.detail {
                Some(msg) => if is_substring(msg@, BRANCH_EXISTS@) {
                    Event::BranchExists
                } else {
                    Event::Failed(e)
                },
                None => Event::Failed(e),
            },
        }),
{
    match created {
        Ok(_) => Event::Done,
        Err(e) => {
            let exists = match &e.detail {
                Some(msg) => contains(msg.as_str(), BRANCH_EXISTS),
                None => false,
            };
            if exists {
                Event::BranchExists
            } else {
                Event::Failed(e)
            }
        },
    }
}

/// Where the custom generator is taken from: a path with a root is copied from
/// disk; anything else is a git url, cloned unless the cache holds it.
pub fn download_or_mv_custom_build_cookbook_generator(rooted: bool, cached: bool) -> (source:
    CustomCookbookSource)
    ensures
        source == (if rooted {
            CustomCookbookSource::Disk
        } else if cached {
            CustomCookbookSource::Cached
        } else {
            CustomCookbookSource::Git
        }),
{
    if rooted {
        CustomCookbookSource::Disk
    } else if cached {
        CustomCookbookSource::Cached
    } else {
        CustomCookbookSource::Git
    }
}

/// A text as `Debug` writes it: between quotes, with what needs it escaped.
pub uninterp spec fn debug_text(s: Seq<char>) -> Seq<char>;

/// Formats `s` with `{:?}`, as `core::fmt::Debug` for `str` writes it.
/// Trusted: the result is the text that `debug_text` names.
#[verifier::external_body]
fn debug_string(s: &str) -> (quoted: String)
    ensures
        quoted@ == debug_text(s@),
{
    format!("{:?}", s)
}

/// What introduces the directory in the failure of `root_dir`.
pub const CURRENT_DIRECTORY: &'static str = "current directory: ";

/// The root directory of the project: of the directories from `dir` upwards,
/// the first that holds a `.git/config`. Fails with `NoGitConfig` where none
/// does.
pub fn root_dir(dir: &str, candidates: &Vec<Candidate>) -> (r: Result<String, DeliveryError>)
    ensures
        match r {
            Ok(root) => exists|i: int|
                is_first_existing(candidates@, i) && root@ == (#[trigger] candidates[i]).dir@,
            Err(e) => {
                &&& forall|j: int| 0 <= j < candidates.len() ==> !candidates[j].exists
                &&& e@ == (ErrorView {
                    kind: Kind::NoGitConfig,
                    detail: Some(CURRENT_DIRECTORY@ + debug_text(dir@)),
                })
            },
        },
{
    match find_first_existing(candidates) {
        Some(i) => Ok(String::from_str(candidates[i].dir.as_str())),
        None => {
            let mut detail = String::from_str(CURRENT_DIRECTORY);
            let quoted = debug_string(dir);
            detail.append(quoted.as_str());
            Err(DeliveryError::with_detail(Kind::NoGitConfig, detail))
        },
    }
}

/// The name of the project: `proj` where it is not empty, and else what
/// `from_cwd` makes of the current directory.
pub fn project_or_from_cwd<F: FnOnce() -> Result<String, DeliveryError>>(
    proj: &str,
    from_cwd: F,
) -> (r: Result<String, DeliveryError>)
    requires
        from_cwd.requires(()),
    ensures
        proj@.len() > 0 ==> r is Ok && r->Ok_0@ == proj@,
        proj@.len() == 0 ==> from_cwd.ensures((), r),
{
    if proj.is_empty() {
        from_cwd()
    } else {
        Ok(String::from_str(proj))
    }
}

/// Whether the custom config is in place already: it is where the
/// destination exists and need not be written.
pub fn custom_config_in_place(source: &str, dest: Option<&str>) -> (event: Event)
    ensures
        event == Event::found(
            match dest {
                None => false,
                Some(d) => md5_hex(source@) == md5_hex(d@),
            },
        ),
        dest matches Some(d) && d@ == source@ ==> event == Event::Present,
{
    Event::probe(!file_needs_updated(source, dest))
}

/// The program that generates cookbooks.
pub const CHEF: &'static str = "chef";

/// Where the build cookbook lies below the root of the project.
pub const BUILD_COOKBOOK: &'static str = ".delivery/build-cookbook";

/// The directory of the project's delivery content.
pub const DOT_DELIVERY: &'static str = ".delivery";

/// Where the config lies below the root of the project.
pub const CONFIG_JSON: &'static str = ".delivery/config.json";

/// The message of the commit of a custom build cookbook.
pub const COMMIT_COOKBOOK: &'static str = "Adds Delivery build cookbook";

/// What the message adds where the config is committed with the cookbook.
pub const AND_CONFIG: &'static str = " and config";

/// A string of the given text.
fn word(s: &str) -> (w: String)
    ensures
        w@ == s@,
{
    String::from_str(s)
}

/// The directory that holds the project's delivery content, relative to the
/// root of the project.
pub fn create_dot_delivery() -> (path: String)
    ensures
        path@ == DOT_DELIVERY@,
{
    word(DOT_DELIVERY)
}

/// The arguments with which `chef` generates the default build cookbook.
pub fn create_default_build_cookbook() -> (args: Vec<String>)
    ensures
        texts(args@) == seq!["generate"@, "build-cookbook"@, BUILD_COOKBOOK@],
{
    let mut args: Vec<String> = Vec::new();
    args.push(word("generate"));
    args.push(word("build-cookbook"));
    args.push(word(BUILD_COOKBOOK));
    assert(texts(args@) =~= seq!["generate"@, "build-cookbook"@, BUILD_COOKBOOK@]);
    args
}

/// The arguments with which `chef` generates the build cookbook from the
/// generator at the given path.
pub fn chef_generate_build_cookbook_from_generator(generator: &str) -> (args: Vec<String>)
    ensures
        texts(args@) == seq!["generate"@, "cookbook"@, BUILD_COOKBOOK@, "-g"@, generator@],
{
    let mut args: Vec<String> = Vec::new();
    args.push(word("generate"));
    args.push(word("cookbook"));
    args.push(word(BUILD_COOKBOOK));
    args.push(word("-g"));
    args.push(word(generator));
    assert(texts(args@) =~= seq!["generate"@, "cookbook"@, BUILD_COOKBOOK@, "-g"@, generator@]);
    args
}

/// The message of the commit that adds the build cookbook: it names the
/// config too unless a custom config was passed, which has its own commit.
pub open spec fn commit_message(custom_config_passed: bool) -> Seq<char> {
    if custom_config_passed {
        COMMIT_COOKBOOK@
    } else {
        COMMIT_COOKBOOK@ + AND_CONFIG@
    }
}

/// The two git commands that add and commit the generated build cookbook:
/// the whole of `.delivery` is added, since it may not be under version
/// control yet.
pub fn add_commit_build_cookbook(custom_config_passed: &bool) -> (commands: (
    Vec<String>,
    Vec<String>,
))
    ensures
        texts(commands.0@) == seq!["add"@, DOT_DELIVERY@],
        texts(commands.1@) == seq!["commit"@, "-m"@, commit_message(*custom_config_passed)],
{
    let mut add: Vec<String> = Vec::new();
    add.push(word("add"));
    add.push(word(DOT_DELIVERY));
    let mut commit_msg = word(COMMIT_COOKBOOK);
    if !(*custom_config_passed) {
        commit_msg.append(AND_CONFIG);
    }
    let mut commit: Vec<String> = Vec::new();
    commit.push(word("commit"));
    commit.push(word("-m"));
    commit.push(commit_msg);
    assert(texts(add@) =~= seq!["add"@, DOT_DELIVERY@]);
    assert(texts(commit@) =~= seq!["commit"@, "-m"@, commit_message(*custom_config_passed)]);
    (add, commit)
}

/// The arguments with which git creates the feature branch, or, where it
/// exists, checks it out.
pub fn checkout_feature_branch(create: bool) -> (args: Vec<String>)
    ensures
        texts(args@) == (if create {
            seq!["checkout"@, "-b"@, FEATURE_BRANCH@]
        } else {
            seq!["checkout"@, FEATURE_BRANCH@]
        }),
{
    let mut args: Vec<String> = Vec::new();
    args.push(word("checkout"));
    if create {
        args.push(word("-b"));
    }
    args.push(word(FEATURE_BRANCH));
    assert(texts(args@) =~= (if create {
        seq!["checkout"@, "-b"@, FEATURE_BRANCH@]
    } else {
        seq!["checkout"@, FEATURE_BRANCH@]
    }));
    args
}

} // verus!
