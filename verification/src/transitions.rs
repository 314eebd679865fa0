use crate::errors::Kind;
use crate::project::CustomCookbookSource;
use crate::workflow::Event;
use crate::workflow::Flags;
use crate::workflow::Move;
use crate::workflow::Notice;
use crate::workflow::Outcome;
use crate::workflow::Phase;
use crate::workflow::Provider;
use crate::workflow::Request;
use crate::workflow::State;
use vstd::prelude::*;

verus! {

/// The transition that asks for `request` and awaits the answer in `phase`.
pub open spec fn asks(st: State, phase: Phase, request: Request, notice: Notice) -> Move {
    Move { state: State { phase: phase, ..st }, request: request, notice: notice }
}

/// The transition that ends the run with `outcome`.
pub open spec fn finishes(st: State, outcome: Outcome, notice: Notice) -> Move {
    Move {
        state: State { phase: Phase::Finished, ..st },
        request: Request::Finish(outcome),
        notice: notice,
    }
}

/// The transition that aborts the run for the given cause.
pub open spec fn halts(st: State, kind: Kind) -> Move {
    Move {
        state: State { phase: Phase::Finished, ..st },
        request: Request::Abort(kind),
        notice: Notice::Nothing,
    }
}

/// The transition on an answer that the phase has no use for: a failure aborts
/// the run for its own cause, anything else as an unexpected response.
pub open spec fn refuses(st: State, event: Event) -> Move {
    match event {
        Event::Failed(e) => halts(st, e.kind),
        _ => halts(st, Kind::UnexpectedResponse),
    }
}

/// The server-side part begins, unless the run is local.
pub open spec fn enters_server(flags: Flags, st: State) -> Move {
    if flags.local {
        enters_cookbook(flags, st, Notice::Nothing)
    } else {
        match flags.provider {
            Provider::Delivery => asks(st, Phase::Project, Request::ProbeProject, Notice::Nothing),
            Provider::Github => asks(
                st,
                Phase::ScpConfig,
                Request::FetchGithubConfig,
                Notice::Nothing,
            ),
            Provider::Bitbucket => asks(
                st,
                Phase::ScpConfig,
                Request::FetchBitbucketConfig,
                Notice::Nothing,
            ),
        }
    }
}

/// The build cookbook's part begins, unless it is skipped.
pub open spec fn enters_cookbook(flags: Flags, st: State, notice: Notice) -> Move {
    if flags.skip_build_cookbook {
        enters_config(flags, st, notice)
    } else {
        asks(st, Phase::GeneratorCache, Request::LocateGeneratorCache, notice)
    }
}

/// The custom config's part begins, where one was given.
pub open spec fn enters_config(flags: Flags, st: State, notice: Notice) -> Move {
    if flags.custom_config {
        asks(st, Phase::ConfigCompare, Request::CompareConfig, notice)
    } else {
        decides_branch(flags, st, notice)
    }
}

/// The branch decision: custom content needs the feature branch; without any,
/// the run is over, but for the look at `origin` in a GitHub project.
pub open spec fn decides_branch(flags: Flags, st: State, notice: Notice) -> Move {
    if st.custom_cookbook || st.config_changed {
        asks(st, Phase::BranchCreate, Request::CreateBranch, notice)
    } else if flags.provider == Provider::Github {
        asks(st, Phase::Origin, Request::ProbeOrigin, notice)
    } else {
        finishes(st, Outcome::Ready, notice)
    }
}

/// On the feature branch, the cookbook is committed where one was generated,
/// and else the config.
pub open spec fn enters_commit(st: State, notice: Notice) -> Move {
    if st.custom_cookbook {
        asks(
            st,
            Phase::CommitCookbook,
            Request::CommitBuildCookbook { with_config: !st.config_changed },
            notice,
        )
    } else {
        asks(st, Phase::CommitConfig, Request::CommitConfig, notice)
    }
}

/// After the commit, a review is due unless the run is local.
pub open spec fn enters_review(flags: Flags, st: State, notice: Notice) -> Move {
    if flags.local {
        finishes(st, Outcome::ReadyLocal, notice)
    } else {
        asks(st, Phase::Head, Request::ReadHead, notice)
    }
}

/// After the initial push: the pipeline is next where the server hosts the
/// repository; a Bitbucket project is done with the server.
pub open spec fn leaves_push(flags: Flags, st: State, notice: Notice) -> Move {
    if flags.provider == Provider::Delivery {
        asks(st, Phase::Pipeline, Request::ProbePipeline, notice)
    } else {
        enters_cookbook(flags, st, notice)
    }
}

/// The phases in which the server, the `delivery` remote and the initial push
/// are seen to.
pub open spec fn on_server(phase: Phase) -> bool {
    phase is ScpConfig || phase is ScpLink || phase is Project || phase is ProjectCreate
        || on_remote(phase) || phase is Pipeline || phase is PipelineCreate
}

/// The phases in which the `delivery` remote and the initial push are seen to.
pub open spec fn on_remote(phase: Phase) -> bool {
    phase is Remote || phase is RemoteAdd || phase is Upstream || phase is UpstreamPush
}

/// The phases of a Bitbucket project after the server's configuration was
/// verified: link, remote and initial push.
pub open spec fn on_bitbucket(phase: Phase) -> bool {
    phase is ScpLink || on_remote(phase)
}

/// The phases in which the build cookbook is generated.
pub open spec fn on_cookbook(phase: Phase) -> bool {
    phase is GeneratorCache || phase is Cookbook || phase is CookbookGenerate
        || phase is CookbookPush || on_custom_cookbook(phase)
}

/// The phases in which a custom build cookbook is generated.
pub open spec fn on_custom_cookbook(phase: Phase) -> bool {
    phase is Generator || phase is GeneratorCopy || phase is GeneratorClone
        || phase is CustomGenerate || phase is CustomConfig
}

/// The phases in which the custom config is put in place.
pub open spec fn on_config(phase: Phase) -> bool {
    phase is ConfigCompare || phase is ConfigCopy
}

/// The phases in which custom content is brought onto the feature branch.
pub open spec fn on_branch(phase: Phase) -> bool {
    phase is BranchCreate || phase is BranchCheckout || phase is CommitCookbook
        || phase is CommitConfig
}

/// The phases in which a review is triggered.
pub open spec fn on_review(phase: Phase) -> bool {
    phase is Head || phase is ReviewSubmit || phase is ReviewOpen || phase is OriginReview
}

/// The transitions of the part that sees to the server, the `delivery`
/// remote and the initial push.
pub open spec fn server_next(flags: Flags, st: State, event: Event) -> Move {
    match st.phase {
        Phase::ScpConfig => match flags.provider {
            Provider::Github => match event {
                Event::Present => asks(
                    st,
                    Phase::ScpLink,
                    Request::LinkGithubProject,
                    Notice::Nothing,
                ),
                Event::Absent => halts(st, Kind::NoGithubSCPConfig),
                _ => refuses(st, event),
            },
            Provider::Bitbucket => match event {
                Event::Present => asks(
                    st,
                    Phase::ScpLink,
                    Request::LinkBitbucketProject,
                    Notice::Nothing,
                ),
                Event::Absent => halts(st, Kind::NoBitbucketSCPConfig),
                _ => refuses(st, event),
            },
            Provider::Delivery => refuses(st, event),
        },
        Phase::ScpLink => match flags.provider {
            Provider::Github => match event {
                Event::Done => enters_cookbook(flags, st, Notice::ProjectLinked),
                _ => refuses(st, event),
            },
            Provider::Bitbucket => match event {
                Event::Done => asks(st, Phase::Remote, Request::ProbeRemote, Notice::ProjectLinked),
                _ => refuses(st, event),
            },
            Provider::Delivery => refuses(st, event),
        },
        Phase::Project => match event {
            Event::Present => asks(st, Phase::Remote, Request::ProbeRemote, Notice::ProjectExists),
            Event::Absent => asks(
                st,
                Phase::ProjectCreate,
                Request::CreateProject,
                Notice::Nothing,
            ),
            _ => refuses(st, event),
        },
        Phase::ProjectCreate => match event {
            Event::Done => asks(st, Phase::Remote, Request::ProbeRemote, Notice::ProjectCreated),
            _ => refuses(st, event),
        },
        Phase::Remote => match event {
            Event::Present => asks(
                st,
                Phase::Upstream,
                Request::ProbeUpstream,
                Notice::RemoteExists,
            ),
            Event::Absent => asks(st, Phase::RemoteAdd, Request::AddRemote, Notice::Nothing),
            Event::Mismatch => halts(st, Kind::GitSetupFailed),
            _ => refuses(st, event),
        },
        Phase::RemoteAdd => match event {
            Event::Done => asks(st, Phase::Upstream, Request::ProbeUpstream, Notice::RemoteAdded),
            _ => refuses(st, event),
        },
        Phase::Upstream => match event {
            Event::Present => leaves_push(flags, st, Notice::UpstreamFound),
            Event::Absent => asks(st, Phase::UpstreamPush, Request::PushHistory, Notice::Nothing),
            _ => refuses(st, event),
        },
        Phase::UpstreamPush => match event {
            Event::Done => leaves_push(flags, st, Notice::HistoryPushed),
            _ => refuses(st, event),
        },
        Phase::Pipeline => match event {
            Event::Present => enters_cookbook(flags, st, Notice::PipelineExists),
            Event::Absent => asks(
                st,
                Phase::PipelineCreate,
                Request::CreatePipeline,
                Notice::Nothing,
            ),
            _ => refuses(st, event),
        },
        Phase::PipelineCreate => match event {
            Event::Done => enters_cookbook(flags, st, Notice::PipelineCreated),
            _ => refuses(st, event),
        },
        _ => refuses(st, event),
    }
}

/// The transitions of the part that generates a custom build cookbook.
pub open spec fn custom_cookbook_next(flags: Flags, st: State, event: Event) -> Move {
    match st.phase {
        Phase::Generator => match event {
            Event::Generator(CustomCookbookSource::Disk) => asks(
                st,
                Phase::GeneratorCopy,
                Request::CopyGenerator,
                Notice::Nothing,
            ),
            Event::Generator(CustomCookbookSource::Git) => asks(
                st,
                Phase::GeneratorClone,
                Request::CloneGenerator,
                Notice::Nothing,
            ),
            Event::Generator(CustomCookbookSource::Cached) => asks(
                st,
                Phase::CustomGenerate,
                Request::GenerateCustomCookbook,
                Notice::GeneratorCached,
            ),
            _ => refuses(st, event),
        },
        Phase::GeneratorCopy => match event {
            Event::Done => asks(
                st,
                Phase::CustomGenerate,
                Request::GenerateCustomCookbook,
                Notice::GeneratorCopied,
            ),
            _ => refuses(st, event),
        },
        Phase::GeneratorClone => match event {
            Event::Done => asks(
                st,
                Phase::CustomGenerate,
                Request::GenerateCustomCookbook,
                Notice::GeneratorCloned,
            ),
            _ => refuses(st, event),
        },
        Phase::CustomGenerate => match event {
            Event::Done => asks(
                st,
                Phase::CustomConfig,
                Request::ProbeConfigFile,
                Notice::CustomCookbookGenerated,
            ),
            _ => refuses(st, event),
        },
        Phase::CustomConfig => match event {
            Event::Present => enters_config(
                flags,
                State { custom_cookbook: true, ..st },
                Notice::Nothing,
            ),
            Event::Absent => finishes(st, Outcome::MissingConfigFile, Notice::Nothing),
            _ => refuses(st, event),
        },
        _ => refuses(st, event),
    }
}

/// The transitions of the part that generates the build cookbook.
pub open spec fn cookbook_next(flags: Flags, st: State, event: Event) -> Move {
    match st.phase {
        Phase::GeneratorCache => match event {
            Event::Done => if flags.custom_generator {
                asks(st, Phase::Generator, Request::InspectGenerator, Notice::Nothing)
            } else {
                asks(st, Phase::Cookbook, Request::ProbeBuildCookbook, Notice::Nothing)
            },
            _ => refuses(st, event),
        },
        Phase::Cookbook => match event {
            Event::Present => enters_config(flags, st, Notice::CookbookExists),
            Event::Absent => asks(
                st,
                Phase::CookbookGenerate,
                Request::GenerateDefaultCookbook,
                Notice::Nothing,
            ),
            _ => refuses(st, event),
        },
        Phase::CookbookGenerate => match event {
            Event::Done => asks(
                st,
                Phase::CookbookPush,
                Request::PushBuildCookbook,
                Notice::CookbookGenerated,
            ),
            _ => refuses(st, event),
        },
        Phase::CookbookPush => match event {
            Event::Done => enters_config(flags, st, Notice::CookbookPushed),
            _ => refuses(st, event),
        },
        _ => custom_cookbook_next(flags, st, event),
    }
}

/// The transitions of the part that puts the custom config in place.
pub open spec fn config_next(flags: Flags, st: State, event: Event) -> Move {
    match st.phase {
        Phase::ConfigCompare => match event {
            Event::Present => decides_branch(flags, st, Notice::ConfigUnchanged),
            Event::Absent => asks(st, Phase::ConfigCopy, Request::CopyConfig, Notice::Nothing),
            _ => refuses(st, event),
        },
        Phase::ConfigCopy => match event {
            Event::Done => decides_branch(
                flags,
                State { config_changed: true, ..st },
                Notice::ConfigCopied,
            ),
            _ => refuses(st, event),
        },
        _ => refuses(st, event),
    }
}

/// The transitions of the part that brings custom content onto the feature
/// branch.
pub open spec fn branch_next(flags: Flags, st: State, event: Event) -> Move {
    match st.phase {
        Phase::BranchCreate => match event {
            Event::Done => enters_commit(st, Notice::BranchCreated),
            Event::BranchExists => asks(
                st,
                Phase::BranchCheckout,
                Request::CheckoutBranch,
                Notice::Nothing,
            ),
            _ => refuses(st, event),
        },
        Phase::BranchCheckout => match event {
            Event::Done => enters_commit(st, Notice::BranchSwitched),
            _ => refuses(st, event),
        },
        Phase::CommitCookbook => match event {
            Event::Done => enters_review(flags, st, Notice::CookbookCommitted),
            _ => refuses(st, event),
        },
        Phase::CommitConfig => match event {
            Event::Done => enters_review(flags, st, Notice::ConfigCommitted),
            _ => refuses(st, event),
        },
        _ => refuses(st, event),
    }
}

/// The transitions of the part that triggers the review.
pub open spec fn review_next(flags: Flags, st: State, event: Event) -> Move {
    match st.phase {
        Phase::Head => match event {
            Event::Done => if flags.provider == Provider::Github {
                asks(st, Phase::OriginReview, Request::ProbeOrigin, Notice::Nothing)
            } else {
                asks(st, Phase::ReviewSubmit, Request::SubmitReview, Notice::Nothing)
            },
            _ => refuses(st, event),
        },
        Phase::ReviewSubmit => match event {
            Event::Done => if flags.no_open {
                finishes(st, Outcome::ReviewSubmitted, Notice::Nothing)
            } else {
                asks(st, Phase::ReviewOpen, Request::OpenReview, Notice::Nothing)
            },
            _ => refuses(st, event),
        },
        Phase::ReviewOpen => match event {
            Event::Done => finishes(st, Outcome::ReviewSubmitted, Notice::Nothing),
            _ => refuses(st, event),
        },
        Phase::OriginReview => match event {
            Event::Present => finishes(st, Outcome::PullRequest, Notice::Nothing),
            Event::Absent => finishes(st, Outcome::PullRequestAddOrigin, Notice::Nothing),
            _ => refuses(st, event),
        },
        _ => refuses(st, event),
    }
}

/// The transitions of a run: from the state and the answer to the request
/// that led to it, the next state, the next request and the notice.
pub open spec fn next(flags: Flags, st: State, event: Event) -> Move {
    if on_server(st.phase) {
        server_next(flags, st, event)
    } else if on_cookbook(st.phase) {
        cookbook_next(flags, st, event)
    } else if on_config(st.phase) {
        config_next(flags, st, event)
    } else if on_branch(st.phase) {
        branch_next(flags, st, event)
    } else if on_review(st.phase) {
        review_next(flags, st, event)
    } else {
        match st.phase {
            Phase::Start => match event {
                Event::Begin => if flags.duplicate_provider {
                    finishes(st, Outcome::DuplicateProvider, Notice::Nothing)
                } else if flags.incomplete_provider {
                    halts(st, Kind::OptionConstraint)
                } else {
                    asks(st, Phase::DotDelivery, Request::CreateDotDelivery, Notice::Nothing)
                },
                _ => refuses(st, event),
            },
            Phase::DotDelivery => match event {
                Event::Done => enters_server(flags, st),
                _ => refuses(st, event),
            },
            Phase::Origin => match event {
                Event::Present => finishes(st, Outcome::Ready, Notice::Nothing),
                Event::Absent => finishes(st, Outcome::ReadyAddOrigin, Notice::Nothing),
                _ => refuses(st, event),
            },
            _ => refuses(st, event),
        }
    }
}

/// The transition is final exactly when it leads to the last phase, and else
/// it leads from the phase of `st` to one of higher rank.
pub open spec fn moves_on(st: State, mv: Move) -> bool {
    &&& mv.request.is_final() <==> mv.state.phase is Finished
    &&& !mv.request.is_final() ==> st.phase.rank() < mv.state.phase.rank()
}

/// `moves_on`, in the first and the last phases.
proof fn start_moves_on(flags: Flags, st: State, event: Event)
    requires
        st.phase is Start || st.phase is DotDelivery || st.phase is Origin || st.phase is Finished,
    ensures
        moves_on(st, next(flags, st, event)),
{
}

/// `moves_on`, in the phases that see to the server.
proof fn server_moves_on(flags: Flags, st: State, event: Event)
    requires
        on_server(st.phase),
    ensures
        moves_on(st, next(flags, st, event)),
{
}

/// `moves_on`, in the phases that generate the build cookbook.
proof fn cookbook_moves_on(flags: Flags, st: State, event: Event)
    requires
        on_cookbook(st.phase),
    ensures
        moves_on(st, next(flags, st, event)),
{
}

/// `moves_on`, in the phases of the config and of the branch.
proof fn branch_moves_on(flags: Flags, st: State, event: Event)
    requires
        on_config(st.phase) || on_branch(st.phase),
    ensures
        moves_on(st, next(flags, st, event)),
{
}

/// `moves_on`, in the phases of the review.
proof fn review_moves_on(flags: Flags, st: State, event: Event)
    requires
        on_review(st.phase),
    ensures
        moves_on(st, next(flags, st, event)),
{
}

/// A run never comes back to a phase that it has left: every transition but
/// the last leads to a phase of higher rank.
pub proof fn next_moves_on(flags: Flags, st: State, event: Event)
    ensures
        moves_on(st, next(flags, st, event)),
{
    if on_server(st.phase) {
        server_moves_on(flags, st, event);
    } else if on_cookbook(st.phase) {
        cookbook_moves_on(flags, st, event);
    } else if on_config(st.phase) || on_branch(st.phase) {
        branch_moves_on(flags, st, event);
    } else if on_review(st.phase) {
        review_moves_on(flags, st, event);
    } else {
        start_moves_on(flags, st, event);
    }
}

} // verus!
