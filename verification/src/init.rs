use crate::errors::DeliveryError;
use crate::errors::ErrorView;
use crate::errors::Kind;
use crate::project::BITBUCKET;
use crate::project::CustomCookbookSource;
use crate::project::GITHUB;
use crate::project::SourceCodeProvider;
use crate::project::Turn;
use crate::project::Type;
use crate::project::create_delivery_pipeline;
use crate::project::create_delivery_project;
use crate::project::create_delivery_remote_if_missing;
use crate::project::missing_attributes;
use crate::project::provider_names_differ;
use crate::project::push_project_content_to_delivery;
use crate::project::texts;
use crate::transitions::asks;
use crate::transitions::config_next;
use crate::transitions::cookbook_next;
use crate::transitions::custom_cookbook_next;
use crate::transitions::decides_branch;
use crate::transitions::enters_commit;
use crate::transitions::enters_config;
use crate::transitions::enters_cookbook;
use crate::transitions::enters_review;
use crate::transitions::enters_server;
use crate::transitions::finishes;
use crate::transitions::halts;
use crate::transitions::leaves_push;
use crate::transitions::next;
use crate::transitions::on_bitbucket;
use crate::transitions::on_config;
use crate::transitions::on_cookbook;
use crate::transitions::on_custom_cookbook;
use crate::transitions::on_remote;
use crate::transitions::on_review;
use crate::transitions::on_server;
use crate::transitions::refuses;
use crate::transitions::review_next;
use crate::transitions::server_next;
use crate::workflow::Event;
use crate::workflow::Flags;
use crate::workflow::Move;
use crate::workflow::Notice;
use crate::workflow::Outcome;
use crate::workflow::Phase;
use crate::workflow::Provider;
use crate::workflow::Request;
use crate::workflow::State;
use vstd::prelude::*;
use vstd::string::StringExecFns;

verus! {

/// The resolved configuration of one run.
#[derive(Debug, Clone)]
pub struct RunConfig {
    pub user: String,
    pub server: String,
    pub enterprise: String,
    pub organization: String,
    pub project: String,
    pub pipeline: String,
    pub repo_name: String,
    pub github_org_name: String,
    pub bitbucket_project_key: String,
    pub no_v_ssl: bool,
    pub generator: Option<String>,
    pub config_json: Option<String>,
    pub local: bool,
    pub skip_build_cookbook: bool,
    pub no_open: bool,
}

/// What the url of the repository on the server starts with.
pub const SSH_SCHEME: &'static str = "ssh://";

/// What stands between the user, the enterprise and the server in that url.
pub const AT: &'static str = "@";

/// The port on which the server serves git, and what follows it in a url.
pub const GIT_PORT: &'static str = ":8989/";

/// What parts the names in a path.
pub const SLASH: &'static str = "/";

/// One step of a run: the transition, and the failure where the run is aborted.
#[derive(Debug, Clone)]
pub struct Step {
    pub state: State,
    pub request: Request,
    pub notice: Notice,
    pub error: Option<DeliveryError>,
}

impl RunConfig {
    /// What of this configuration the sequencing depends on.
    pub open spec fn flags_spec(&self) -> Flags {
        let github = self.github_org_name@.len() > 0;
        let bitbucket = self.bitbucket_project_key@.len() > 0;
        Flags {
            provider: if github {
                Provider::Github
            } else if bitbucket {
                Provider::Bitbucket
            } else {
                Provider::Delivery
            },
            duplicate_provider: github && bitbucket,
            incomplete_provider: (github || bitbucket) && (self.repo_name@.len() == 0
                || self.pipeline@.len() == 0),
            local: self.local,
            skip_build_cookbook: self.skip_build_cookbook,
            custom_generator: self.generator is Some,
            custom_config: self.config_json is Some,
            no_open: self.no_open,
        }
    }

    /// What of this configuration the sequencing depends on.
    pub fn flags(&self) -> (flags: Flags)
        ensures
            flags == self.flags_spec(),
    {
        let github = !self.github_org_name.as_str().is_empty();
        let bitbucket = !self.bitbucket_project_key.as_str().is_empty();
        Flags {
            provider: if github {
                Provider::Github
            } else if bitbucket {
                Provider::Bitbucket
            } else {
                Provider::Delivery
            },
            duplicate_provider: github && bitbucket,
            incomplete_provider: (github || bitbucket) && (self.repo_name.as_str().is_empty()
                || self.pipeline.as_str().is_empty()),
            local: self.local,
            skip_build_cookbook: self.skip_build_cookbook,
            custom_generator: self.generator.is_some(),
            custom_config: self.config_json.is_some(),
            no_open: self.no_open,
        }
    }

    /// The provider that this configuration selects, if any: GitHub where an
    /// organization is given, else Bitbucket where a project key is given. The
    /// pipeline is the branch; certificates are never verified for Bitbucket.
    pub fn source_code_provider(&self) -> (r: Result<Option<SourceCodeProvider>, DeliveryError>)
        ensures
            self.flags_spec().provider == Provider::Delivery ==> r == Ok::<
                Option<SourceCodeProvider>,
                DeliveryError,
            >(None),
            self.flags_spec().provider != Provider::Delivery
                && self.flags_spec().incomplete_provider ==> r is Err && r->Err_0@ == (ErrorView {
                kind: Kind::OptionConstraint,
                detail: Some(missing_attributes(self.provider_type())),
            }),
            self.flags_spec().provider != Provider::Delivery
                && !self.flags_spec().incomplete_provider ==> r is Ok && r->Ok_0 is Some && {
                let scp = r->Ok_0->Some_0;
                &&& scp.wf()
                &&& scp.kind == self.provider_type()
                &&& scp.repo_name@ == self.repo_name@
                &&& scp.branch@ == self.pipeline@
                &&& scp.organization@ == (if scp.kind == Type::Github {
                    self.github_org_name@
                } else {
                    self.bitbucket_project_key@
                })
                &&& scp.verify_ssl == (scp.kind == Type::Github && !self.no_v_ssl)
            },
    {
        proof {
            provider_names_differ();
        }
        if !self.github_org_name.as_str().is_empty() {
            match SourceCodeProvider::new(
                GITHUB,
                self.repo_name.as_str(),
                self.github_org_name.as_str(),
                self.pipeline.as_str(),
                self.no_v_ssl,
            ) {
                Ok(scp) => Ok(Some(scp)),
                Err(e) => Err(e),
            }
        } else if !self.bitbucket_project_key.as_str().is_empty() {
            match SourceCodeProvider::new(
                BITBUCKET,
                self.repo_name.as_str(),
                self.bitbucket_project_key.as_str(),
                self.pipeline.as_str(),
                true,
            ) {
                Ok(scp) => Ok(Some(scp)),
                Err(e) => Err(e),
            }
        } else {
            Ok(None)
        }
    }

    /// The url of the project's repository on the server, over ssh.
    pub open spec fn git_ssh_url(&self) -> Seq<char> {
        SSH_SCHEME@ + self.user@ + AT@ + self.enterprise@ + AT@ + self.server@ + GIT_PORT@
            + self.enterprise@ + SLASH@ + self.organization@ + SLASH@ + self.project@
    }

    /// The url that the `delivery` remote points at: the project's repository
    /// on the server, over ssh, for this user of this enterprise.
    pub fn delivery_git_ssh_url(&self) -> (url: String)
        ensures
            url@ == self.git_ssh_url(),
    {
        let mut url = String::from_str(SSH_SCHEME);
        url.append(self.user.as_str());
        url.append(AT);
        url.append(self.enterprise.as_str());
        url.append(AT);
        url.append(self.server.as_str());
        url.append(GIT_PORT);
        url.append(self.enterprise.as_str());
        url.append(SLASH);
        url.append(self.organization.as_str());
        url.append(SLASH);
        url.append(self.project.as_str());
        url
    }

    /// The kind of the provider that this configuration selects, where it
    /// selects one.
    pub open spec fn provider_type(&self) -> Type {
        if self.github_org_name@.len() > 0 {
            Type::Github
        } else {
            Type::Bitbucket
        }
    }
}

/// Asks for `request` and awaits the answer in `phase`.
fn ask(st: State, phase: Phase, request: Request, notice: Notice) -> (mv: Move)
    ensures
        mv == asks(st, phase, request, notice),
{
    Move { state: State { phase: phase, ..st }, request: request, notice: notice }
}

/// Ends the run with `outcome`.
fn finish(st: State, outcome: Outcome, notice: Notice) -> (mv: Move)
    ensures
        mv == finishes(st, outcome, notice),
{
    Move {
        state: State { phase: Phase::Finished, ..st },
        request: Request::Finish(outcome),
        notice: notice,
    }
}

/// Aborts the run for the given cause.
fn halt(st: State, kind: Kind) -> (mv: Move)
    ensures
        mv == halts(st, kind),
{
    Move {
        state: State { phase: Phase::Finished, ..st },
        request: Request::Abort(kind),
        notice: Notice::Nothing,
    }
}

/// Aborts the run on an answer that the phase has no use for.
fn refuse(st: State, event: &Event) -> (mv: Move)
    ensures
        mv == refuses(st, *event),
{
    match event {
        Event::Failed(e) => halt(st, e.kind),
        _ => halt(st, Kind::UnexpectedResponse),
    }
}

/// Begins the server-side part, unless the run is local.
fn enter_server(flags: Flags, st: State) -> (mv: Move)
    ensures
        mv == enters_server(flags, st),
{
    if flags.local {
        enter_cookbook(flags, st, Notice::Nothing)
    } else {
        match flags.provider {
            Provider::Delivery => ask(st, Phase::Project, Request::ProbeProject, Notice::Nothing),
            Provider::Github => ask(
                st,
                Phase::ScpConfig,
                Request::FetchGithubConfig,
                Notice::Nothing,
            ),
            Provider::Bitbucket => ask(
                st,
                Phase::ScpConfig,
                Request::FetchBitbucketConfig,
                Notice::Nothing,
            ),
        }
    }
}

/// Begins the build cookbook's part, unless it is skipped.
fn enter_cookbook(flags: Flags, st: State, notice: Notice) -> (mv: Move)
    ensures
        mv == enters_cookbook(flags, st, notice),
{
    if flags.skip_build_cookbook {
        enter_config(flags, st, notice)
    } else {
        ask(st, Phase::GeneratorCache, Request::LocateGeneratorCache, notice)
    }
}

/// Begins the custom config's part, where one was given.
fn enter_config(flags: Flags, st: State, notice: Notice) -> (mv: Move)
    ensures
        mv == enters_config(flags, st, notice),
{
    if flags.custom_config {
        ask(st, Phase::ConfigCompare, Request::CompareConfig, notice)
    } else {
        decide_branch(flags, st, notice)
    }
}

/// Decides whether the feature branch is needed.
fn decide_branch(flags: Flags, st: State, notice: Notice) -> (mv: Move)
    ensures
        mv == decides_branch(flags, st, notice),
{
    if st.custom_cookbook || st.config_changed {
        ask(st, Phase::BranchCreate, Request::CreateBranch, notice)
    } else {
        match flags.provider {
            Provider::Github => ask(st, Phase::Origin, Request::ProbeOrigin, notice),
            _ => finish(st, Outcome::Ready, notice),
        }
    }
}

/// Commits the cookbook where one was generated, and else the config.
fn enter_commit(st: State, notice: Notice) -> (mv: Move)
    ensures
        mv == enters_commit(st, notice),
{
    if st.custom_cookbook {
        ask(
            st,
            Phase::CommitCookbook,
            Request::CommitBuildCookbook { with_config: !st.config_changed },
            notice,
        )
    } else {
        ask(st, Phase::CommitConfig, Request::CommitConfig, notice)
    }
}

/// Goes on to the review, unless the run is local.
fn enter_review(flags: Flags, st: State, notice: Notice) -> (mv: Move)
    ensures
        mv == enters_review(flags, st, notice),
{
    if flags.local {
        finish(st, Outcome::ReadyLocal, notice)
    } else {
        ask(st, Phase::Head, Request::ReadHead, notice)
    }
}

/// Goes on after the initial push.
fn leave_push(flags: Flags, st: State, notice: Notice) -> (mv: Move)
    ensures
        mv == leaves_push(flags, st, notice),
{
    match flags.provider {
        Provider::Delivery => ask(st, Phase::Pipeline, Request::ProbePipeline, notice),
        _ => enter_cookbook(flags, st, notice),
    }
}

/// The remote and the initial push, as every provider but GitHub has them.
fn remote_and_push(flags: Flags, st: State, event: &Event) -> (mv: Move)
    requires
        on_remote(st.phase),
    ensures
        mv == server_next(flags, st, *event),
{
    match st.phase {
        Phase::Remote => match create_delivery_remote_if_missing(false, event) {
            Turn::Act => ask(st, Phase::RemoteAdd, Request::AddRemote, Notice::Nothing),
            Turn::Settled { .. } => ask(
                st,
                Phase::Upstream,
                Request::ProbeUpstream,
                Notice::RemoteExists,
            ),
            Turn::Failed(kind) => halt(st, kind),
        },
        Phase::RemoteAdd => match create_delivery_remote_if_missing(true, event) {
            Turn::Settled { .. } => ask(
                st,
                Phase::Upstream,
                Request::ProbeUpstream,
                Notice::RemoteAdded,
            ),
            Turn::Failed(kind) => halt(st, kind),
            Turn::Act => halt(st, Kind::UnexpectedResponse),
        },
        Phase::Upstream => match push_project_content_to_delivery(false, event) {
            Turn::Act => ask(st, Phase::UpstreamPush, Request::PushHistory, Notice::Nothing),
            Turn::Settled { .. } => leave_push(flags, st, Notice::UpstreamFound),
            Turn::Failed(kind) => halt(st, kind),
        },
        _ => match push_project_content_to_delivery(true, event) {
            Turn::Settled { .. } => leave_push(flags, st, Notice::HistoryPushed),
            Turn::Failed(kind) => halt(st, kind),
            Turn::Act => halt(st, Kind::UnexpectedResponse),
        },
    }
}

/// A Bitbucket project: once it is linked on the server, the `delivery`
/// remote is seen to and history is pushed where upstream has none.
fn create_bitbucket_project(flags: Flags, st: State, event: &Event) -> (mv: Move)
    requires
        flags.provider == Provider::Bitbucket,
        on_bitbucket(st.phase),
    ensures
        mv == server_next(flags, st, *event),
{
    match st.phase {
        Phase::ScpLink => match event {
            Event::Done => ask(st, Phase::Remote, Request::ProbeRemote, Notice::ProjectLinked),
            _ => refuse(st, event),
        },
        _ => remote_and_push(flags, st, event),
    }
}

/// The project on the server. With a provider, its configuration on the
/// server is verified first and the project is linked under it; without one,
/// project, remote, initial push and pipeline are seen to in turn.
fn create_on_server(flags: Flags, st: State, event: &Event) -> (mv: Move)
    requires
        on_server(st.phase),
    ensures
        mv == server_next(flags, st, *event),
{
    match st.phase {
        Phase::ScpConfig => match flags.provider {
            Provider::Github => match event {
                Event::Present => ask(
                    st,
                    Phase::ScpLink,
                    Request::LinkGithubProject,
                    Notice::Nothing,
                ),
                Event::Absent => halt(st, Kind::NoGithubSCPConfig),
                _ => refuse(st, event),
            },
            Provider::Bitbucket => match event {
                Event::Present => ask(
                    st,
                    Phase::ScpLink,
                    Request::LinkBitbucketProject,
                    Notice::Nothing,
                ),
                Event::Absent => halt(st, Kind::NoBitbucketSCPConfig),
                _ => refuse(st, event),
            },
            Provider::Delivery => refuse(st, event),
        },
        Phase::ScpLink => match flags.provider {
            Provider::Bitbucket => create_bitbucket_project(flags, st, event),
            Provider::Github => match event {
                Event::Done => enter_cookbook(flags, st, Notice::ProjectLinked),
                _ => refuse(st, event),
            },
            Provider::Delivery => refuse(st, event),
        },
        Phase::Project => match create_delivery_project(false, event) {
            Turn::Act => ask(st, Phase::ProjectCreate, Request::CreateProject, Notice::Nothing),
            Turn::Settled { .. } => ask(
                st,
                Phase::Remote,
                Request::ProbeRemote,
                Notice::ProjectExists,
            ),
            Turn::Failed(kind) => halt(st, kind),
        },
        Phase::ProjectCreate => match create_delivery_project(true, event) {
            Turn::Settled { .. } => ask(
                st,
                Phase::Remote,
                Request::ProbeRemote,
                Notice::ProjectCreated,
            ),
            Turn::Failed(kind) => halt(st, kind),
            Turn::Act => halt(st, Kind::UnexpectedResponse),
        },
        Phase::Pipeline => match create_delivery_pipeline(false, event) {
            Turn::Act => ask(
                st,
                Phase::PipelineCreate,
                Request::CreatePipeline,
                Notice::Nothing,
            ),
            Turn::Settled { .. } => enter_cookbook(flags, st, Notice::PipelineExists),
            Turn::Failed(kind) => halt(st, kind),
        },
        Phase::PipelineCreate => match create_delivery_pipeline(true, event) {
            Turn::Settled { .. } => enter_cookbook(flags, st, Notice::PipelineCreated),
            Turn::Failed(kind) => halt(st, kind),
            Turn::Act => halt(st, Kind::UnexpectedResponse),
        },
        _ => match flags.provider {
            Provider::Bitbucket => create_bitbucket_project(flags, st, event),
            _ => remote_and_push(flags, st, event),
        },
    }
}

/// The custom build cookbook: the generator is brought into the cache, the
/// cookbook is generated from it, and the config that it must have written is
/// looked for. Without that config the run ends.
fn generate_custom_build_cookbook(flags: Flags, st: State, event: &Event) -> (mv: Move)
    requires
        on_custom_cookbook(st.phase),
    ensures
        mv == custom_cookbook_next(flags, st, *event),
{
    match st.phase {
        Phase::Generator => match event {
            Event::Generator(CustomCookbookSource::Disk) => ask(
                st,
                Phase::GeneratorCopy,
                Request::CopyGenerator,
                Notice::Nothing,
            ),
            Event::Generator(CustomCookbookSource::Git) => ask(
                st,
                Phase::GeneratorClone,
                Request::CloneGenerator,
                Notice::Nothing,
            ),
            Event::Generator(CustomCookbookSource::Cached) => ask(
                st,
                Phase::CustomGenerate,
                Request::GenerateCustomCookbook,
                Notice::GeneratorCached,
            ),
            _ => refuse(st, event),
        },
        Phase::GeneratorCopy => match event {
            Event::Done => ask(
                st,
                Phase::CustomGenerate,
                Request::GenerateCustomCookbook,
                Notice::GeneratorCopied,
            ),
            _ => refuse(st, event),
        },
        Phase::GeneratorClone => match event {
            Event::Done => ask(
                st,
                Phase::CustomGenerate,
                Request::GenerateCustomCookbook,
                Notice::GeneratorCloned,
            ),
            _ => refuse(st, event),
        },
        Phase::CustomGenerate => match event {
            Event::Done => ask(
                st,
                Phase::CustomConfig,
                Request::ProbeConfigFile,
                Notice::CustomCookbookGenerated,
            ),
            _ => refuse(st, event),
        },
        _ => match event {
            Event::Present => enter_config(
                flags,
                State { custom_cookbook: true, ..st },
                Notice::Nothing,
            ),
            Event::Absent => finish(st, Outcome::MissingConfigFile, Notice::Nothing),
            _ => refuse(st, event),
        },
    }
}

/// The build cookbook: from the custom generator where one is given; else
/// the default one, generated and pushed only where none is there yet.
fn generate_build_cookbook(flags: Flags, st: State, event: &Event) -> (mv: Move)
    requires
        on_cookbook(st.phase),
    ensures
        mv == cookbook_next(flags, st, *event),
{
    match st.phase {
        Phase::GeneratorCache => match event {
            Event::Done => if flags.custom_generator {
                ask(st, Phase::Generator, Request::InspectGenerator, Notice::Nothing)
            } else {
                ask(st, Phase::Cookbook, Request::ProbeBuildCookbook, Notice::Nothing)
            },
            _ => refuse(st, event),
        },
        Phase::Cookbook => match event {
            Event::Present => enter_config(flags, st, Notice::CookbookExists),
            Event::Absent => ask(
                st,
                Phase::CookbookGenerate,
                Request::GenerateDefaultCookbook,
                Notice::Nothing,
            ),
            _ => refuse(st, event),
        },
        Phase::CookbookGenerate => match event {
            Event::Done => ask(
                st,
                Phase::CookbookPush,
                Request::PushBuildCookbook,
                Notice::CookbookGenerated,
            ),
            _ => refuse(st, event),
        },
        Phase::CookbookPush => match event {
            Event::Done => enter_config(flags, st, Notice::CookbookPushed),
            _ => refuse(st, event),
        },
        _ => generate_custom_build_cookbook(flags, st, event),
    }
}

/// The custom config: copied over `.delivery/config.json` only where the two
/// differ.
fn generate_delivery_config(flags: Flags, st: State, event: &Event) -> (mv: Move)
    requires
        on_config(st.phase),
    ensures
        mv == config_next(flags, st, *event),
{
    match st.phase {
        Phase::ConfigCompare => match event {
            Event::Present => decide_branch(flags, st, Notice::ConfigUnchanged),
            Event::Absent => ask(st, Phase::ConfigCopy, Request::CopyConfig, Notice::Nothing),
            _ => refuse(st, event),
        },
        _ => match event {
            Event::Done => decide_branch(
                flags,
                State { config_changed: true, ..st },
                Notice::ConfigCopied,
            ),
            _ => refuse(st, event),
        },
    }
}

/// The review: submitted through the server and opened unless that is
/// suppressed; for a GitHub project left to the user as a pull request, with
/// a look at the `origin` remote.
fn trigger_review(flags: Flags, st: State, event: &Event) -> (mv: Move)
    requires
        on_review(st.phase),
    ensures
        mv == review_next(flags, st, *event),
{
    match st.phase {
        Phase::Head => match event {
            Event::Done => match flags.provider {
                Provider::Github => ask(
                    st,
                    Phase::OriginReview,
                    Request::ProbeOrigin,
                    Notice::Nothing,
                ),
                _ => ask(st, Phase::ReviewSubmit, Request::SubmitReview, Notice::Nothing),
            },
            _ => refuse(st, event),
        },
        Phase::ReviewSubmit => match event {
            Event::Done => if flags.no_open {
                finish(st, Outcome::ReviewSubmitted, Notice::Nothing)
            } else {
                ask(st, Phase::ReviewOpen, Request::OpenReview, Notice::Nothing)
            },
            _ => refuse(st, event),
        },
        Phase::ReviewOpen => match event {
            Event::Done => finish(st, Outcome::ReviewSubmitted, Notice::Nothing),
            _ => refuse(st, event),
        },
        _ => match event {
            Event::Present => finish(st, Outcome::PullRequest, Notice::Nothing),
            Event::Absent => finish(st, Outcome::PullRequestAddOrigin, Notice::Nothing),
            _ => refuse(st, event),
        },
    }
}

/// One transition of a run.
pub fn advance(flags: Flags, st: State, event: &Event) -> (mv: Move)
    ensures
        mv == next(flags, st, *event),
{
    match st.phase {
        Phase::Start => match event {
            Event::Begin => if flags.duplicate_provider {
                finish(st, Outcome::DuplicateProvider, Notice::Nothing)
            } else if flags.incomplete_provider {
                halt(st, Kind::OptionConstraint)
            } else {
                ask(st, Phase::DotDelivery, Request::CreateDotDelivery, Notice::Nothing)
            },
            _ => refuse(st, event),
        },
        Phase::DotDelivery => match event {
            Event::Done => enter_server(flags, st),
            _ => refuse(st, event),
        },
        Phase::ScpConfig | Phase::ScpLink | Phase::Project | Phase::ProjectCreate | Phase::Remote
        | Phase::RemoteAdd | Phase::Upstream | Phase::UpstreamPush | Phase::Pipeline
        | Phase::PipelineCreate => create_on_server(flags, st, event),
        Phase::GeneratorCache | Phase::Cookbook | Phase::CookbookGenerate | Phase::CookbookPush
        | Phase::Generator | Phase::GeneratorCopy | Phase::GeneratorClone | Phase::CustomGenerate
        | Phase::CustomConfig => generate_build_cookbook(flags, st, event),
        Phase::ConfigCompare | Phase::ConfigCopy => generate_delivery_config(flags, st, event),
        Phase::BranchCreate => match event {
            Event::Done => enter_commit(st, Notice::BranchCreated),
            Event::BranchExists => ask(
                st,
                Phase::BranchCheckout,
                Request::CheckoutBranch,
                Notice::Nothing,
            ),
            _ => refuse(st, event),
        },
        Phase::BranchCheckout => match event {
            Event::Done => enter_commit(st, Notice::BranchSwitched),
            _ => refuse(st, event),
        },
        Phase::CommitCookbook => match event {
            Event::Done => enter_review(flags, st, Notice::CookbookCommitted),
            _ => refuse(st, event),
        },
        Phase::CommitConfig => match event {
            Event::Done => enter_review(flags, st, Notice::ConfigCommitted),
            _ => refuse(st, event),
        },
        Phase::Head | Phase::ReviewSubmit | Phase::ReviewOpen | Phase::OriginReview => {
            trigger_review(flags, st, event)
        },
        Phase::Origin => match event {
            Event::Present => finish(st, Outcome::Ready, Notice::Nothing),
            Event::Absent => finish(st, Outcome::ReadyAddOrigin, Notice::Nothing),
            _ => refuse(st, event),
        },
        Phase::Finished => refuse(st, event),
    }
}

/// What an optional failure says.
pub open spec fn error_view(error: Option<DeliveryError>) -> Option<ErrorView> {
    match error {
        Some(e) => Some(e@),
        None => None,
    }
}

/// The failure that goes with a transition: none unless the run is aborted;
/// the collaborator's own where it failed; else one of the cause for which the
/// run is aborted, with a message where a provider's attribute is missing.
pub open spec fn failure(cfg: &RunConfig, st: State, event: Event) -> Option<ErrorView> {
    match next(cfg.flags_spec(), st, event).request {
        Request::Abort(kind) => Some(
            match event {
                Event::Failed(e) => e@,
                _ => ErrorView {
                    kind: kind,
                    detail: if kind == Kind::OptionConstraint {
                        Some(missing_attributes(cfg.provider_type()))
                    } else {
                        None
                    },
                },
            },
        ),
        _ => None,
    }
}

/// Before the build cookbook, a run is aborted for a missing attribute only
/// at its start.
proof fn early_aborts(flags: Flags, st: State, event: Event)
    requires
        st.phase is Start || st.phase is DotDelivery || on_server(st.phase),
        !(event is Failed),
        next(flags, st, event).request == Request::Abort(Kind::OptionConstraint),
    ensures
        st.phase is Start,
        flags.incomplete_provider,
{
}

/// From the build cookbook on, no run is aborted for a missing attribute.
proof fn late_aborts(flags: Flags, st: State, event: Event)
    requires
        !(st.phase is Start || st.phase is DotDelivery || on_server(st.phase)),
        !(event is Failed),
    ensures
        next(flags, st, event).request != Request::Abort(Kind::OptionConstraint),
{
}

/// One step of a run: given the state and what came of the last request, the
/// next state, what to do next, and what to tell the user. A run starts in
/// `State::new()` with `Event::Begin`, and is over when the request is final.
pub fn run(cfg: &RunConfig, st: State, event: Event) -> (step: Step)
    ensures
        step.state == next(cfg.flags_spec(), st, event).state,
        step.request == next(cfg.flags_spec(), st, event).request,
        step.notice == next(cfg.flags_spec(), st, event).notice,
        error_view(step.error) == failure(cfg, st, event),
{
    let flags = cfg.flags();
    let mv = advance(flags, st, &event);
    let error = match mv.request {
        Request::Abort(kind) => match event {
            Event::Failed(e) => Some(e),
            _ => {
                proof {
                    if st.phase is Start || st.phase is DotDelivery || on_server(st.phase) {
                        if kind == Kind::OptionConstraint {
                            early_aborts(flags, st, event);
                        }
                    } else {
                        late_aborts(flags, st, event);
                    }
                }
                match kind {
                    Kind::OptionConstraint => match cfg.source_code_provider() {
                        Err(e) => Some(e),
                        Ok(_) => Some(DeliveryError::bare(kind)),
                    },
                    _ => Some(DeliveryError::bare(kind)),
                }
            },
        },
        _ => None,
    };
    Step { state: mv.state, request: mv.request, notice: mv.notice, error: error }
}

/// The pipeline that a project targets where none is named.
pub const DEFAULT_PIPELINE: &'static str = "master";

/// The pipeline of a run: the one that is named, and `master` where none is.
/// It is never empty.
pub fn resolve_pipeline(pipeline: &str) -> (resolved: String)
    ensures
        resolved@ == (if pipeline@.len() == 0 {
            DEFAULT_PIPELINE@
        } else {
            pipeline@
        }),
        resolved@.len() > 0,
{
    proof {
        reveal_strlit("master");
    }
    if pipeline.is_empty() {
        String::from_str(DEFAULT_PIPELINE)
    } else {
        String::from_str(pipeline)
    }
}

/// The first of the lines that tell how to add the `origin` remote.
pub const ADD_REMOTE_FIRST: &'static str = "First, you must add your remote.";

/// The line above the command for ssh.
pub const ADD_REMOTE_SSH: &'static str = "Run this if you want to use ssh:\n";

/// The line above the command for https.
pub const ADD_REMOTE_HTTPS: &'static str = "Or this for https:\n";

/// What the command for ssh starts with.
pub const SSH_REMOTE: &'static str = "git remote add origin git@github.com:";

/// What the command for https starts with.
pub const HTTPS_REMOTE: &'static str = "git remote add origin https://github.com/";

/// What either command ends with.
pub const DOT_GIT: &'static str = ".git\n";

/// The command that adds the `origin` remote of a GitHub repository, after
/// what it starts with.
pub open spec fn add_remote_command(start: Seq<char>, s: SourceCodeProvider) -> Seq<char> {
    start + s.organization@ + SLASH@ + s.repo_name@ + DOT_GIT@
}

/// The command that adds the `origin` remote, after what it starts with.
fn remote_command(start: &str, s: &SourceCodeProvider) -> (line: String)
    ensures
        line@ == add_remote_command(start@, *s),
{
    let mut line = String::from_str(start);
    line.append(s.organization.as_str());
    line.append(SLASH);
    line.append(s.repo_name.as_str());
    line.append(DOT_GIT);
    line
}

/// The lines that tell the user how to add the `origin` remote of a GitHub
/// project, over ssh and over https.
pub fn setup_github_remote_msg(s: &SourceCodeProvider) -> (lines: Vec<String>)
    ensures
        texts(lines@) == seq![
            ADD_REMOTE_FIRST@,
            ADD_REMOTE_SSH@,
            add_remote_command(SSH_REMOTE@, *s),
            ADD_REMOTE_HTTPS@,
            add_remote_command(HTTPS_REMOTE@, *s),
        ],
{
    let mut lines: Vec<String> = Vec::new();
    lines.push(String::from_str(ADD_REMOTE_FIRST));
    lines.push(String::from_str(ADD_REMOTE_SSH));
    lines.push(remote_command(SSH_REMOTE, s));
    lines.push(String::from_str(ADD_REMOTE_HTTPS));
    lines.push(remote_command(HTTPS_REMOTE, s));
    assert(texts(lines@) =~= seq![
        ADD_REMOTE_FIRST@,
        ADD_REMOTE_SSH@,
        add_remote_command(SSH_REMOTE@, *s),
        ADD_REMOTE_HTTPS@,
        add_remote_command(HTTPS_REMOTE@, *s),
    ]);
    lines
}

} // verus!
