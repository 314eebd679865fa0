use crate::init::advance;
use crate::project::CustomCookbookSource;
use crate::project::download_or_mv_custom_build_cookbook_generator;
use crate::transitions::next;
use crate::transitions::next_moves_on;
use crate::workflow::Event;
use crate::workflow::Flags;
use crate::workflow::Request;
use crate::workflow::Resource;
use crate::workflow::State;
use vstd::prelude::*;

verus! {

/// The `delivery` remote of the local repository.
#[derive(Debug, Clone, Copy, PartialEq, Eq, Structural)]
pub enum Remote {
    Missing,
    /// It points at the server's git url.
    Correct,
    /// It points somewhere else.
    Elsewhere,
}

/// The file `.delivery/config.json`.
#[derive(Debug, Clone, Copy, PartialEq, Eq, Structural)]
pub enum ConfigFile {
    Missing,
    /// It holds what the custom config holds.
    Custom,
    /// It holds something else.
    Other,
}

/// The resources that a run looks at and brings about, as far as a run can
/// tell them apart.
#[derive(Debug, Clone, Copy, PartialEq, Eq, Structural)]
pub struct World {
    /// The server has the selected provider's integration configured.
    pub scp_configured: bool,
    /// The server has the project.
    pub project: bool,
    pub remote: Remote,
    /// The pipeline's branch has commits on the server.
    pub upstream: bool,
    /// The server has the pipeline.
    pub pipeline: bool,
    /// The directory `.delivery` exists.
    pub dot_delivery: bool,
    /// The directory `.delivery/build-cookbook` exists.
    pub build_cookbook: bool,
    pub config: ConfigFile,
    /// The custom generator is a path on the local filesystem.
    pub generator_on_disk: bool,
    /// The generator cache holds the custom generator.
    pub generator_cached: bool,
    /// The custom generator writes a `.delivery/config.json`.
    pub generator_writes_config: bool,
    /// The branch `add-delivery-config` exists.
    pub feature_branch: bool,
    /// The remote `origin` exists.
    pub origin: bool,
}

/// A whole run against a world: the world that it leaves, the request that
/// ended it, and the requests that were carried out, in order.
#[derive(Debug, Clone)]
pub struct Run {
    pub world: World,
    pub ending: Request,
    pub trace: Vec<Request>,
}

/// What `Run` holds, with the trace as a sequence.
pub struct RunView {
    pub world: World,
    pub ending: Request,
    pub trace: Seq<Request>,
}

impl View for Run {
    type V = RunView;

    open spec fn view(&self) -> RunView {
        RunView { world: self.world, ending: self.ending, trace: self.trace@ }
    }
}

impl World {
    /// A world in which nothing is there yet, with a remote generator that
    /// writes its config.
    pub fn fresh() -> (w: World)
        ensures
            w == (World {
                scp_configured: false,
                project: false,
                remote: Remote::Missing,
                upstream: false,
                pipeline: false,
                dot_delivery: false,
                build_cookbook: false,
                config: ConfigFile::Missing,
                generator_on_disk: false,
                generator_cached: false,
                generator_writes_config: true,
                feature_branch: false,
                origin: false,
            }),
    {
        World {
            scp_configured: false,
            project: false,
            remote: Remote::Missing,
            upstream: false,
            pipeline: false,
            dot_delivery: false,
            build_cookbook: false,
            config: ConfigFile::Missing,
            generator_on_disk: false,
            generator_cached: false,
            generator_writes_config: true,
            feature_branch: false,
            origin: false,
        }
    }

    /// The resource is there and as it should be.
    pub open spec fn has(self, resource: Resource) -> bool {
        match resource {
            Resource::Project => self.project,
            Resource::Remote => self.remote == Remote::Correct,
            Resource::History => self.upstream,
            Resource::Pipeline => self.pipeline,
            Resource::BuildCookbook => self.build_cookbook,
            Resource::Config => self.config == ConfigFile::Custom,
        }
    }

    /// The world once `request` was carried out on this one: what a request
    /// brings about is there afterwards, and nothing that was there is lost.
    pub open spec fn after(self, request: Request) -> World {
        World {
            scp_configured: self.scp_configured,
            project: self.project || request is LinkGithubProject
                || request is LinkBitbucketProject || request is CreateProject,
            remote: if request is AddRemote {
                Remote::Correct
            } else {
                self.remote
            },
            upstream: self.upstream || request is PushHistory || request is PushBuildCookbook,
            pipeline: self.pipeline || request is CreatePipeline,
            dot_delivery: self.dot_delivery || request is CreateDotDelivery,
            build_cookbook: self.build_cookbook || request is GenerateDefaultCookbook
                || request is GenerateCustomCookbook,
            config: if request is CopyConfig {
                ConfigFile::Custom
            } else if self.config is Missing && (request is GenerateDefaultCookbook || (request
                is GenerateCustomCookbook && self.generator_writes_config)) {
                ConfigFile::Other
            } else {
                self.config
            },
            generator_on_disk: self.generator_on_disk,
            generator_cached: self.generator_cached || request is CopyGenerator
                || request is CloneGenerator,
            generator_writes_config: self.generator_writes_config,
            feature_branch: self.feature_branch || request is CreateBranch,
            origin: self.origin,
        }
    }

    /// The answer to `request` when it is carried out on this world.
    pub open spec fn reply(self, request: Request) -> Event {
        match request {
            Request::FetchGithubConfig => Event::found(self.scp_configured),
            Request::FetchBitbucketConfig => Event::found(self.scp_configured),
            Request::ProbeProject => Event::found(self.project),
            Request::ProbeRemote => match self.remote {
                Remote::Missing => Event::Absent,
                Remote::Correct => Event::Present,
                Remote::Elsewhere => Event::Mismatch,
            },
            Request::ProbeUpstream => Event::found(self.upstream),
            Request::ProbePipeline => Event::found(self.pipeline),
            Request::ProbeBuildCookbook => Event::found(self.build_cookbook),
            Request::InspectGenerator => Event::Generator(
                if self.generator_on_disk {
                    CustomCookbookSource::Disk
                } else if self.generator_cached {
                    CustomCookbookSource::Cached
                } else {
                    CustomCookbookSource::Git
                },
            ),
            Request::ProbeConfigFile => Event::found(!(self.config is Missing)),
            Request::CompareConfig => Event::found(self.config is Custom),
            Request::CreateBranch => if self.feature_branch {
                Event::BranchExists
            } else {
                Event::Done
            },
            Request::ProbeOrigin => Event::found(self.origin),
            _ => Event::Done,
        }
    }

    /// Carries out `request` on this world: the world afterwards, and the
    /// answer.
    pub fn respond(self, request: Request) -> (r: (World, Event))
        ensures
            r.0 == self.after(request),
            r.1 == self.reply(request),
    {
        let reply = match request {
            Request::FetchGithubConfig => Event::probe(self.scp_configured),
            Request::FetchBitbucketConfig => Event::probe(self.scp_configured),
            Request::ProbeProject => Event::probe(self.project),
            Request::ProbeRemote => match self.remote {
                Remote::Missing => Event::Absent,
                Remote::Correct => Event::Present,
                Remote::Elsewhere => Event::Mismatch,
            },
            Request::ProbeUpstream => Event::probe(self.upstream),
            Request::ProbePipeline => Event::probe(self.pipeline),
            Request::ProbeBuildCookbook => Event::probe(self.build_cookbook),
            Request::InspectGenerator => Event::Generator(
                download_or_mv_custom_build_cookbook_generator(
                    self.generator_on_disk,
                    self.generator_cached,
                ),
            ),
            Request::ProbeConfigFile => Event::probe(!matches!(self.config, ConfigFile::Missing)),
            Request::CompareConfig => Event::probe(matches!(self.config, ConfigFile::Custom)),
            Request::CreateBranch => if self.feature_branch {
                Event::BranchExists
            } else {
                Event::Done
            },
            Request::ProbeOrigin => Event::probe(self.origin),
            _ => Event::Done,
        };
        let generated = matches!(request, Request::GenerateDefaultCookbook) || (matches!(
            request,
            Request::GenerateCustomCookbook
        ) && self.generator_writes_config);
        let after = World {
            scp_configured: self.scp_configured,
            project: self.project || matches!(
                request,
                Request::LinkGithubProject | Request::LinkBitbucketProject | Request::CreateProject
            ),
            remote: if matches!(request, Request::AddRemote) {
                Remote::Correct
            } else {
                self.remote
            },
            upstream: self.upstream || matches!(
                request,
                Request::PushHistory | Request::PushBuildCookbook
            ),
            pipeline: self.pipeline || matches!(request, Request::CreatePipeline),
            dot_delivery: self.dot_delivery || matches!(request, Request::CreateDotDelivery),
            build_cookbook: self.build_cookbook || matches!(
                request,
                Request::GenerateDefaultCookbook | Request::GenerateCustomCookbook
            ),
            config: if matches!(request, Request::CopyConfig) {
                ConfigFile::Custom
            } else if matches!(self.config, ConfigFile::Missing) && generated {
                ConfigFile::Other
            } else {
                self.config
            },
            generator_on_disk: self.generator_on_disk,
            generator_cached: self.generator_cached || matches!(
                request,
                Request::CopyGenerator | Request::CloneGenerator
            ),
            generator_writes_config: self.generator_writes_config,
            feature_branch: self.feature_branch || matches!(request, Request::CreateBranch),
            origin: self.origin,
        };
        (after, reply)
    }
}

/// The run that goes on from state `st` with the answer `event`, against
/// `world`: every request is carried out on the world, as `World::after` and
/// `World::reply` have it, until the run is over.
pub open spec fn run_from(flags: Flags, st: State, world: World, event: Event) -> RunView
    decreases 32 - st.phase.rank(),
    via run_from_ends
{
    let mv = next(flags, st, event);
    if mv.request.is_final() {
        RunView { world: world, ending: mv.request, trace: Seq::empty() }
    } else {
        let rest = run_from(
            flags,
            mv.state,
            world.after(mv.request),
            world.reply(mv.request),
        );
        RunView { trace: seq![mv.request] + rest.trace, ..rest }
    }
}

#[via_fn]
proof fn run_from_ends(flags: Flags, st: State, world: World, event: Event) {
    next_moves_on(flags, st, event);
}

/// A whole run against `world`.
pub open spec fn run_on(flags: Flags, world: World) -> RunView {
    run_from(flags, State::initial(), world, Event::Begin)
}

/// Runs the workflow against a world, from the start to the end.
pub fn simulate(flags: Flags, world: World) -> (run: Run)
    ensures
        run@ == run_on(flags, world),
        run.ending.is_final(),
{
    let mut st = State::new();
    let mut w = world;
    let mut event = Event::Begin;
    let mut trace: Vec<Request> = Vec::new();
    loop
        invariant
            run_on(flags, world) == (RunView {
                trace: trace@ + run_from(flags, st, w, event).trace,
                ..run_from(flags, st, w, event)
            }),
        decreases 32 - st.phase.rank(),
    {
        let mv = advance(flags, st, &event);
        proof {
            next_moves_on(flags, st, event);
        }
        if mv.request.ends_run() {
            assert(trace@ + Seq::<Request>::empty() =~= trace@);
            return Run { world: w, ending: mv.request, trace: trace };
        }
        let (after, reply) = w.respond(mv.request);
        proof {
            let rest = run_from(flags, mv.state, after, reply);
            assert((trace@.push(mv.request)) + rest.trace =~= trace@ + (seq![mv.request]
                + rest.trace));
        }
        trace.push(mv.request);
        st = mv.state;
        w = after;
        event = reply;
    }
}

} // verus!
