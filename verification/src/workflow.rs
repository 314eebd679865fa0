use crate::errors::DeliveryError;
use crate::errors::Kind;
use crate::project::CustomCookbookSource;
use vstd::prelude::*;
use vstd::string::StringExecFns;

verus! {

/// Which source code provider governs the project.
#[derive(Debug, Clone, Copy, PartialEq, Eq, Structural)]
pub enum Provider {
    /// The server hosts the repository itself.
    Delivery,
    Github,
    Bitbucket,
}

/// What of the configuration the sequencing depends on.
#[derive(Debug, Clone, Copy, PartialEq, Eq, Structural)]
pub struct Flags {
    pub provider: Provider,
    /// Both a GitHub organization and a Bitbucket project key were given.
    pub duplicate_provider: bool,
    /// A provider was chosen and one of its required attributes is empty.
    pub incomplete_provider: bool,
    pub local: bool,
    pub skip_build_cookbook: bool,
    pub custom_generator: bool,
    pub custom_config: bool,
    pub no_open: bool,
}

/// The point that a run has reached: what was asked last and is now awaited.
#[derive(Debug, Clone, Copy, PartialEq, Eq, Structural)]
pub enum Phase {
    Start,
    DotDelivery,
    ScpConfig,
    ScpLink,
    Project,
    ProjectCreate,
    Remote,
    RemoteAdd,
    Upstream,
    UpstreamPush,
    Pipeline,
    PipelineCreate,
    GeneratorCache,
    Cookbook,
    CookbookGenerate,
    CookbookPush,
    Generator,
    GeneratorCopy,
    GeneratorClone,
    CustomGenerate,
    CustomConfig,
    ConfigCompare,
    ConfigCopy,
    BranchCreate,
    BranchCheckout,
    CommitCookbook,
    CommitConfig,
    Head,
    ReviewSubmit,
    ReviewOpen,
    Origin,
    OriginReview,
    Finished,
}

/// The state of a run: its phase and what it has produced so far.
#[derive(Debug, Clone, Copy, PartialEq, Eq, Structural)]
pub struct State {
    pub phase: Phase,
    /// A custom build cookbook was generated in this run.
    pub custom_cookbook: bool,
    /// The custom config was copied over `.delivery/config.json` in this run.
    pub config_changed: bool,
}

/// How a run ends when it ends by itself.
#[derive(Debug, Clone, Copy, PartialEq, Eq, Structural)]
pub enum Outcome {
    /// Nothing custom was made: the project is ready.
    Ready,
    /// As `Ready`, for a GitHub project without an `origin` remote.
    ReadyAddOrigin,
    /// Custom content was committed; no review, the run being local.
    ReadyLocal,
    /// Custom content was committed and submitted for review.
    ReviewSubmitted,
    /// Custom content was committed; a pull request is left to the user.
    PullRequest,
    /// As `PullRequest`, for a project without an `origin` remote.
    PullRequestAddOrigin,
    /// Both GitHub and Bitbucket were selected.
    DuplicateProvider,
    /// The custom generator left no `.delivery/config.json`.
    MissingConfigFile,
}

/// A resource that is probed first and created only where it is missing.
#[derive(Debug, Clone, Copy, PartialEq, Eq, Structural)]
pub enum Resource {
    /// The project on the server.
    Project,
    /// The `delivery` remote.
    Remote,
    /// The commits of the pipeline's branch on the server.
    History,
    /// The pipeline on the server.
    Pipeline,
    /// The directory `.delivery/build-cookbook`.
    BuildCookbook,
    /// The custom config as `.delivery/config.json`.
    Config,
}

/// What the caller is to do next.
#[derive(Debug, Clone, Copy, PartialEq, Eq, Structural)]
pub enum Request {
    CreateDotDelivery,
    FetchGithubConfig,
    FetchBitbucketConfig,
    LinkGithubProject,
    LinkBitbucketProject,
    ProbeProject,
    CreateProject,
    ProbeRemote,
    AddRemote,
    ProbeUpstream,
    PushHistory,
    ProbePipeline,
    CreatePipeline,
    LocateGeneratorCache,
    ProbeBuildCookbook,
    GenerateDefaultCookbook,
    PushBuildCookbook,
    InspectGenerator,
    CopyGenerator,
    CloneGenerator,
    GenerateCustomCookbook,
    ProbeConfigFile,
    CompareConfig,
    CopyConfig,
    CreateBranch,
    CheckoutBranch,
    /// Commit `.delivery`; the config goes with the cookbook where no custom
    /// config was copied.
    CommitBuildCookbook { with_config: bool },
    CommitConfig,
    ReadHead,
    SubmitReview,
    OpenReview,
    ProbeOrigin,
    /// The run is over.
    Finish(Outcome),
    /// The run failed for the given cause.
    Abort(Kind),
}

/// What the step that was just completed came to, for the user to be told.
#[derive(Debug, Clone, Copy, PartialEq, Eq, Structural)]
pub enum Notice {
    Nothing,
    ProjectLinked,
    ProjectCreated,
    ProjectExists,
    RemoteAdded,
    RemoteExists,
    HistoryPushed,
    UpstreamFound,
    PipelineCreated,
    PipelineExists,
    CookbookExists,
    CookbookGenerated,
    CookbookPushed,
    GeneratorCached,
    GeneratorCopied,
    GeneratorCloned,
    CustomCookbookGenerated,
    ConfigUnchanged,
    ConfigCopied,
    BranchCreated,
    BranchSwitched,
    CookbookCommitted,
    ConfigCommitted,
}

/// What came of the last request.
#[derive(Debug, Clone)]
pub enum Event {
    /// Nothing was asked yet.
    Begin,
    /// The action was carried out.
    Done,
    /// The probed resource is there and as it should be.
    Present,
    /// The probed resource is not there.
    Absent,
    /// The probed resource is there and is not as it should be.
    Mismatch,
    /// The feature branch could not be created because it exists.
    BranchExists,
    /// Where the custom generator comes from.
    Generator(CustomCookbookSource),
    /// The collaborator failed.
    Failed(DeliveryError),
}

/// A transition: the next state, the next request, and what to tell the user.
#[derive(Debug, Clone, Copy, PartialEq, Eq, Structural)]
pub struct Move {
    pub state: State,
    pub request: Request,
    pub notice: Notice,
}

impl Event {
    /// The answer that a probe gives on a resource that is there, or is not.
    pub open spec fn found(present: bool) -> Event {
        if present {
            Event::Present
        } else {
            Event::Absent
        }
    }

    /// The answer of a probe that found the resource, or did not.
    pub fn probe(present: bool) -> (event: Event)
        ensures
            event == Event::found(present),
    {
        if present {
            Event::Present
        } else {
            Event::Absent
        }
    }

    /// What came of a probe that may itself have failed.
    pub fn probed(present: Result<bool, DeliveryError>) -> (event: Event)
        ensures
            event == (match present {
                Ok(p) => Event::found(p),
                Err(e) => Event::Failed(e),
            }),
    {
        match present {
            Ok(p) => Event::probe(p),
            Err(e) => Event::Failed(e),
        }
    }

    /// What came of an action.
    pub fn acted(done: Result<(), DeliveryError>) -> (event: Event)
        ensures
            event == (match done {
                Ok(_) => Event::Done,
                Err(e) => Event::Failed(e),
            }),
    {
        match done {
            Ok(_) => Event::Done,
            Err(e) => Event::Failed(e),
        }
    }

    /// What came of a check that passes only where the resource is there.
    pub fn verified(checked: Result<(), DeliveryError>) -> (event: Event)
        ensures
            event == (match checked {
                Ok(_) => Event::Present,
                Err(e) => Event::Failed(e),
            }),
    {
        match checked {
            Ok(_) => Event::Present,
            Err(e) => Event::Failed(e),
        }
    }
}

/// What the user is told where both providers were selected.
pub const ONE_PROVIDER_ONLY: &'static str =
    "Please specify just one Source Code Provider: delivery (default), github or bitbucket.";

/// What the user is told where the custom generator left no config.
pub const CONFIG_NOT_CREATED: &'static str =
    "You used a custom build cookbook generator, but .delivery/config.json was not created.\nPlease update your generator to create a valid .delivery/config.json or pass in a custom config.";

impl Outcome {
    /// Why the run did not succeed, for the outcomes with exit status 1.
    pub open spec fn reason_spec(self) -> Option<Seq<char>> {
        match self {
            Outcome::DuplicateProvider => Some(ONE_PROVIDER_ONLY@),
            Outcome::MissingConfigFile => Some(CONFIG_NOT_CREATED@),
            _ => None,
        }
    }

    /// Why the run did not succeed: a message for the user where the exit
    /// status is 1, and none where it is 0.
    pub fn reason(self) -> (reason: Option<String>)
        ensures
            reason is Some <==> self.code_spec() == 1,
            match reason {
                Some(text) => self.reason_spec() == Some(text@),
                None => self.reason_spec() is None,
            },
    {
        match self {
            Outcome::DuplicateProvider => Some(String::from_str(ONE_PROVIDER_ONLY)),
            Outcome::MissingConfigFile => Some(String::from_str(CONFIG_NOT_CREATED)),
            _ => None,
        }
    }

    /// The exit status: 0 for success, 1 for a failure that the user can mend.
    pub open spec fn code_spec(self) -> int {
        match self {
            Outcome::DuplicateProvider => 1,
            Outcome::MissingConfigFile => 1,
            _ => 0,
        }
    }

    /// The exit status: 0 for success, 1 for a failure that the user can mend.
    pub fn code(self) -> (c: u8)
        ensures
            c == self.code_spec(),
    {
        match self {
            Outcome::DuplicateProvider => 1,
            Outcome::MissingConfigFile => 1,
            _ => 0,
        }
    }
}

impl Request {
    /// The run is over once this is returned.
    pub open spec fn is_final(self) -> bool {
        self is Finish || self is Abort
    }

    /// Carrying this out only reads: it leaves the disk, the repository and
    /// the server as they are.
    pub open spec fn reads(self) -> bool {
        match self {
            Request::FetchGithubConfig => true,
            Request::FetchBitbucketConfig => true,
            Request::ProbeProject => true,
            Request::ProbeRemote => true,
            Request::ProbeUpstream => true,
            Request::ProbePipeline => true,
            Request::LocateGeneratorCache => true,
            Request::ProbeBuildCookbook => true,
            Request::InspectGenerator => true,
            Request::ProbeConfigFile => true,
            Request::CompareConfig => true,
            Request::ReadHead => true,
            Request::ProbeOrigin => true,
            _ => false,
        }
    }

    /// Whether the run is over once this is returned.
    pub fn ends_run(self) -> (b: bool)
        ensures
            b == self.is_final(),
    {
        match self {
            Request::Finish(_) => true,
            Request::Abort(_) => true,
            _ => false,
        }
    }
}

impl Resource {
    /// The request that brings the resource about.
    pub open spec fn creation(self) -> Request {
        match self {
            Resource::Project => Request::CreateProject,
            Resource::Remote => Request::AddRemote,
            Resource::History => Request::PushHistory,
            Resource::Pipeline => Request::CreatePipeline,
            Resource::BuildCookbook => Request::GenerateDefaultCookbook,
            Resource::Config => Request::CopyConfig,
        }
    }

    /// The phase in which the answer of the probe is awaited.
    pub open spec fn probing(self) -> Phase {
        match self {
            Resource::Project => Phase::Project,
            Resource::Remote => Phase::Remote,
            Resource::History => Phase::Upstream,
            Resource::Pipeline => Phase::Pipeline,
            Resource::BuildCookbook => Phase::Cookbook,
            Resource::Config => Phase::ConfigCompare,
        }
    }
}

impl Phase {
    /// The place of a phase in the order in which a run passes through them.
    pub open spec fn rank(self) -> nat {
        match self {
            Phase::Start => 0,
            Phase::DotDelivery => 1,
            Phase::ScpConfig => 2,
            Phase::ScpLink => 3,
            Phase::Project => 4,
            Phase::ProjectCreate => 5,
            Phase::Remote => 6,
            Phase::RemoteAdd => 7,
            Phase::Upstream => 8,
            Phase::UpstreamPush => 9,
            Phase::Pipeline => 10,
            Phase::PipelineCreate => 11,
            Phase::GeneratorCache => 12,
            Phase::Cookbook => 13,
            Phase::CookbookGenerate => 14,
            Phase::CookbookPush => 15,
            Phase::Generator => 16,
            Phase::GeneratorCopy => 17,
            Phase::GeneratorClone => 18,
            Phase::CustomGenerate => 19,
            Phase::CustomConfig => 20,
            Phase::ConfigCompare => 21,
            Phase::ConfigCopy => 22,
            Phase::BranchCreate => 23,
            Phase::BranchCheckout => 24,
            Phase::CommitCookbook => 25,
            Phase::CommitConfig => 26,
            Phase::Head => 27,
            Phase::ReviewSubmit => 28,
            Phase::ReviewOpen => 29,
            Phase::Origin => 30,
            Phase::OriginReview => 31,
            Phase::Finished => 32,
        }
    }
}

impl State {
    /// The state in which every run starts.
    pub open spec fn initial() -> State {
        State { phase: Phase::Start, custom_cookbook: false, config_changed: false }
    }

    /// The state in which every run starts.
    pub fn new() -> (s: State)
        ensures
            s == State::initial(),
    {
        State { phase: Phase::Start, custom_cookbook: false, config_changed: false }
    }
}

} // verus!
