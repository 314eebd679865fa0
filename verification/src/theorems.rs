use crate::init::RunConfig;
use crate::transitions::next;
use crate::transitions::next_moves_on;
use crate::transitions::on_branch;
use crate::transitions::on_config;
use crate::transitions::on_cookbook;
use crate::transitions::on_custom_cookbook;
use crate::transitions::on_review;
use crate::transitions::on_server;
use crate::workflow::Event;
use crate::workflow::Flags;
use crate::workflow::Outcome;
use crate::workflow::Phase;
use crate::workflow::Request;
use crate::workflow::Resource;
use crate::workflow::State;
use crate::world::Remote;
use crate::world::RunView;
use crate::world::World;
use crate::world::run_from;
use crate::world::run_on;
use vstd::prelude::*;

verus! {

/// No request of the trace is `request`.
pub open spec fn never(trace: Seq<Request>, request: Request) -> bool {
    forall|i: int| 0 <= i < trace.len() ==> trace[i] != request
}

/// Every request of the trace only reads, or makes sure of `.delivery`.
pub open spec fn quiet(trace: Seq<Request>) -> bool {
    forall|i: int|
        0 <= i < trace.len() ==> (#[trigger] trace[i]).reads() || trace[i]
            == Request::CreateDotDelivery
}

/// Where both a GitHub organization and a Bitbucket project key are given,
/// the run ends at once with exit status 1: nothing is asked of git, the disk
/// or the server, and the world is left as it was.
pub proof fn duplicate_provider_touches_nothing(cfg: RunConfig, world: World)
    requires
        cfg.github_org_name@.len() > 0,
        cfg.bitbucket_project_key@.len() > 0,
    ensures
        run_on(cfg.flags_spec(), world) == (RunView {
            world: world,
            ending: Request::Finish(Outcome::DuplicateProvider),
            trace: Seq::empty(),
        }),
        Outcome::DuplicateProvider.code_spec() == 1,
{
}

/// A materializer that finds its resource does nothing: on the answer that
/// the resource is there, the next request is not the one that creates it;
/// on the answer that it is missing, it is.
pub proof fn present_resource_is_left_alone(flags: Flags, st: State, resource: Resource)
    requires
        st.phase == resource.probing(),
    ensures
        next(flags, st, Event::Present).request != resource.creation(),
        next(flags, st, Event::Absent).request == resource.creation(),
{
}

/// A request in front of a trace without `request` leaves it without, unless
/// it is `request` itself.
proof fn never_after(first: Request, rest: Seq<Request>, request: Request)
    requires
        first != request,
        never(rest, request),
    ensures
        never(seq![first] + rest, request),
{
    let whole = seq![first] + rest;
    assert forall|i: int| 0 <= i < whole.len() implies whole[i] != request by {
        if i > 0 {
            assert(whole[i] == rest[i - 1]);
        }
    }
}

/// A quiet request in front of a quiet trace makes a quiet trace.
proof fn quiet_after(first: Request, rest: Seq<Request>)
    requires
        first.reads() || first == Request::CreateDotDelivery,
        quiet(rest),
    ensures
        quiet(seq![first] + rest),
{
    let whole = seq![first] + rest;
    assert forall|i: int| 0 <= i < whole.len() implies (#[trigger] whole[i]).reads() || whole[i]
        == Request::CreateDotDelivery by {
        if i > 0 {
            assert(whole[i] == rest[i - 1]);
        }
    }
}

/// What the run from `st` knows of a resource that the world has: where the
/// answer of its probe is awaited, the answer is that it is there.
spec fn keeps(st: State, world: World, event: Event, resource: Resource) -> bool {
    &&& world.has(resource)
    &&& st.phase == resource.probing() ==> event == Event::Present
}

/// One step keeps `keeps`, in the phases that see to the server.
proof fn keeps_on_server(flags: Flags, st: State, world: World, event: Event, resource: Resource)
    requires
        on_server(st.phase),
        keeps(st, world, event, resource),
        !next(flags, st, event).request.is_final(),
    ensures
        next(flags, st, event).request != resource.creation(),
        keeps(
            next(flags, st, event).state,
            world.after(next(flags, st, event).request),
            world.reply(next(flags, st, event).request),
            resource,
        ),
{
}

/// One step keeps `keeps`, in the phases that generate the build cookbook.
proof fn keeps_on_cookbook(flags: Flags, st: State, world: World, event: Event, resource: Resource)
    requires
        on_cookbook(st.phase),
        keeps(st, world, event, resource),
        !next(flags, st, event).request.is_final(),
    ensures
        next(flags, st, event).request != resource.creation(),
        keeps(
            next(flags, st, event).state,
            world.after(next(flags, st, event).request),
            world.reply(next(flags, st, event).request),
            resource,
        ),
{
}

/// One step keeps `keeps`, in the phases of the config and of the branch.
proof fn keeps_on_branch(flags: Flags, st: State, world: World, event: Event, resource: Resource)
    requires
        on_config(st.phase) || on_branch(st.phase),
        keeps(st, world, event, resource),
        !next(flags, st, event).request.is_final(),
    ensures
        next(flags, st, event).request != resource.creation(),
        keeps(
            next(flags, st, event).state,
            world.after(next(flags, st, event).request),
            world.reply(next(flags, st, event).request),
            resource,
        ),
{
}

/// One step keeps `keeps`, in the phases of the review.
proof fn keeps_on_review(flags: Flags, st: State, world: World, event: Event, resource: Resource)
    requires
        on_review(st.phase),
        keeps(st, world, event, resource),
        !next(flags, st, event).request.is_final(),
    ensures
        next(flags, st, event).request != resource.creation(),
        keeps(
            next(flags, st, event).state,
            world.after(next(flags, st, event).request),
            world.reply(next(flags, st, event).request),
            resource,
        ),
{
}

/// One step keeps `keeps`, in the first and the last phases.
proof fn keeps_on_ends(flags: Flags, st: State, world: World, event: Event, resource: Resource)
    requires
        st.phase is Start || st.phase is DotDelivery || st.phase is Origin || st.phase is Finished,
        keeps(st, world, event, resource),
        !next(flags, st, event).request.is_final(),
    ensures
        next(flags, st, event).request != resource.creation(),
        keeps(
            next(flags, st, event).state,
            world.after(next(flags, st, event).request),
            world.reply(next(flags, st, event).request),
            resource,
        ),
{
}

/// One step keeps `keeps`, and does not ask for the resource to be created.
proof fn keeps_on(flags: Flags, st: State, world: World, event: Event, resource: Resource)
    requires
        keeps(st, world, event, resource),
        !next(flags, st, event).request.is_final(),
    ensures
        next(flags, st, event).request != resource.creation(),
        keeps(
            next(flags, st, event).state,
            world.after(next(flags, st, event).request),
            world.reply(next(flags, st, event).request),
            resource,
        ),
{
    if on_server(st.phase) {
        keeps_on_server(flags, st, world, event, resource);
    } else if on_cookbook(st.phase) {
        keeps_on_cookbook(flags, st, world, event, resource);
    } else if on_config(st.phase) || on_branch(st.phase) {
        keeps_on_branch(flags, st, world, event, resource);
    } else if on_review(st.phase) {
        keeps_on_review(flags, st, world, event, resource);
    } else {
        keeps_on_ends(flags, st, world, event, resource);
    }
}

/// By induction on the run: what `keeps` says at its start holds of all of it.
proof fn kept(flags: Flags, st: State, world: World, event: Event, resource: Resource)
    requires
        keeps(st, world, event, resource),
    ensures
        never(run_from(flags, st, world, event).trace, resource.creation()),
        run_from(flags, st, world, event).world.has(resource),
    decreases 32 - st.phase.rank(),
{
    let mv = next(flags, st, event);
    next_moves_on(flags, st, event);
    if !mv.request.is_final() {
        let after = world.after(mv.request);
        let reply = world.reply(mv.request);
        keeps_on(flags, st, world, event, resource);
        kept(flags, mv.state, after, reply, resource);
        never_after(mv.request, run_from(flags, mv.state, after, reply).trace, resource.creation());
    }
}

/// A resource that is there when the run starts is never created: the request
/// that creates it is not among those of the run, and the resource is still
/// there when the run is over.
pub proof fn present_resource_is_never_created(flags: Flags, world: World, resource: Resource)
    requires
        world.has(resource),
    ensures
        never(run_on(flags, world).trace, resource.creation()),
        run_on(flags, world).world.has(resource),
{
    kept(flags, State::initial(), world, Event::Begin, resource);
}

/// What a run knows while a custom generator that writes no config is to be
/// run, or was: no config is there, the run has not come past the build
/// cookbook, and the probe for the config finds none.
spec fn stalls(flags: Flags, st: State, world: World, event: Event) -> bool {
    &&& flags.custom_generator
    &&& !flags.skip_build_cookbook
    &&& world.config is Missing
    &&& !world.generator_writes_config
    &&& st.phase is Start || st.phase is DotDelivery || on_server(st.phase)
        || st.phase is GeneratorCache || on_custom_cookbook(st.phase)
    &&& st.phase is CustomGenerate ==> event == Event::Done
    &&& st.phase is CustomConfig ==> event == Event::Absent
}

/// One step keeps `stalls`, and does not ask for the feature branch.
proof fn stalls_on(flags: Flags, st: State, world: World, event: Event)
    requires
        stalls(flags, st, world, event),
        !next(flags, st, event).request.is_final(),
    ensures
        next(flags, st, event).request != Request::CreateBranch,
        next(flags, st, event).request != Request::CheckoutBranch,
        next(flags, st, event).request == Request::GenerateCustomCookbook ==> next(
            flags,
            st,
            event,
        ).state.phase is CustomGenerate,
        stalls(
            flags,
            next(flags, st, event).state,
            world.after(next(flags, st, event).request),
            world.reply(next(flags, st, event).request),
        ),
{
}

/// A run that ends while it `stalls` ends without success.
proof fn stalls_at_last(flags: Flags, st: State, world: World, event: Event)
    requires
        stalls(flags, st, world, event),
        next(flags, st, event).request.is_final(),
    ensures
        next(flags, st, event).request matches Request::Finish(o) ==> o.code_spec() == 1,
        st.phase is CustomConfig ==> next(flags, st, event).request == Request::Finish(
            Outcome::MissingConfigFile,
        ),
        !(st.phase is CustomGenerate),
{
}

/// By induction on the run: what `stalls` says at its start holds of all of it.
proof fn stalled(flags: Flags, st: State, world: World, event: Event)
    requires
        stalls(flags, st, world, event),
    ensures
        never(run_from(flags, st, world, event).trace, Request::CreateBranch),
        never(run_from(flags, st, world, event).trace, Request::CheckoutBranch),
        run_from(flags, st, world, event).ending matches Request::Finish(o) ==> o.code_spec() == 1,
        st.phase is CustomGenerate || st.phase is CustomConfig || !never(
            run_from(flags, st, world, event).trace,
            Request::GenerateCustomCookbook,
        ) ==> run_from(flags, st, world, event).ending == Request::Finish(
            Outcome::MissingConfigFile,
        ),
    decreases 32 - st.phase.rank(),
{
    let mv = next(flags, st, event);
    next_moves_on(flags, st, event);
    if mv.request.is_final() {
        stalls_at_last(flags, st, world, event);
    } else {
        let after = world.after(mv.request);
        let reply = world.reply(mv.request);
        let rest = run_from(flags, mv.state, after, reply);
        stalls_on(flags, st, world, event);
        stalled(flags, mv.state, after, reply);
        never_after(mv.request, rest.trace, Request::CreateBranch);
        never_after(mv.request, rest.trace, Request::CheckoutBranch);
        if mv.request != Request::GenerateCustomCookbook && never(
            rest.trace,
            Request::GenerateCustomCookbook,
        ) {
            never_after(mv.request, rest.trace, Request::GenerateCustomCookbook);
        }
    }
}

/// Where a custom generator is to be run that writes no
/// `.delivery/config.json`, and none is there: the run never asks for the
/// feature branch and never ends with exit status 0; and once the generator
/// was run, the run ends with `MissingConfigFile`, whose exit status is 1.
pub proof fn generator_without_config_stops_the_run(flags: Flags, world: World)
    requires
        flags.custom_generator,
        !flags.skip_build_cookbook,
        world.config is Missing,
        !world.generator_writes_config,
    ensures
        never(run_on(flags, world).trace, Request::CreateBranch),
        never(run_on(flags, world).trace, Request::CheckoutBranch),
        run_on(flags, world).ending matches Request::Finish(o) ==> o.code_spec() == 1,
        !never(run_on(flags, world).trace, Request::GenerateCustomCookbook) ==> run_on(
            flags,
            world,
        ).ending == Request::Finish(Outcome::MissingConfigFile),
        Outcome::MissingConfigFile.code_spec() == 1,
{
    stalled(flags, State::initial(), world, Event::Begin);
}

/// The configurations of which a second run finds nothing to do: the server
/// hosts the repository or the run is local, and the build cookbook is the
/// default one or is skipped.
pub open spec fn repeatable(flags: Flags) -> bool {
    &&& flags.local || flags.provider is Delivery
    &&& flags.skip_build_cookbook || !flags.custom_generator
}

/// The configuration selects at most one provider, and all that it takes to
/// link the project to it is given.
pub open spec fn selects_one(flags: Flags) -> bool {
    !flags.duplicate_provider && !flags.incomplete_provider
}

/// Everything that a run of this configuration makes sure of is there.
pub open spec fn settled(flags: Flags, world: World) -> bool {
    &&& world.dot_delivery
    &&& !flags.local ==> world.project && world.remote is Correct && world.upstream
        && world.pipeline
    &&& !flags.skip_build_cookbook ==> world.build_cookbook
    &&& flags.custom_config ==> world.config is Custom
}

/// What a run has made sure of when it stands in `st` with the answer
/// `event`: all that the phases before it see to, and what the answer says.
spec fn settling(flags: Flags, st: State, world: World, event: Event) -> bool {
    let rank = st.phase.rank();
    &&& repeatable(flags)
    &&& rank >= 1 ==> world.dot_delivery
    &&& !flags.local ==> {
        &&& rank >= 5 || (st.phase is Project && event == Event::Present) ==> world.project
        &&& rank >= 7 || (st.phase is Remote && event == Event::Present) ==> world.remote
            is Correct
        &&& rank >= 9 || (st.phase is Upstream && event == Event::Present) ==> world.upstream
        &&& rank >= 11 || (st.phase is Pipeline && event == Event::Present) ==> world.pipeline
    }
    &&& !flags.skip_build_cookbook ==> (rank >= 14 || (st.phase is Cookbook && event
        == Event::Present) ==> world.build_cookbook)
    &&& flags.custom_config ==> (rank >= 22 || (st.phase is ConfigCompare && event
        == Event::Present) ==> world.config is Custom)
}

/// One step keeps `settling`.
proof fn settling_on(flags: Flags, st: State, world: World, event: Event)
    requires
        settling(flags, st, world, event),
        !next(flags, st, event).request.is_final(),
    ensures
        settling(
            flags,
            next(flags, st, event).state,
            world.after(next(flags, st, event).request),
            world.reply(next(flags, st, event).request),
        ),
{
}

/// A run that ends well while `settling` holds leaves everything settled.
proof fn settling_at_last(flags: Flags, st: State, world: World, event: Event)
    requires
        settling(flags, st, world, event),
        next(flags, st, event).request matches Request::Finish(o) && o.code_spec() == 0,
    ensures
        settled(flags, world),
{
}

/// By induction on the run: a run that starts `settling` and ends well leaves
/// everything settled.
proof fn settles(flags: Flags, st: State, world: World, event: Event)
    requires
        settling(flags, st, world, event),
    ensures
        run_from(flags, st, world, event).ending matches Request::Finish(o) && o.code_spec() == 0
            ==> settled(flags, run_from(flags, st, world, event).world),
    decreases 32 - st.phase.rank(),
{
    let mv = next(flags, st, event);
    next_moves_on(flags, st, event);
    if mv.request.is_final() {
        if mv.request matches Request::Finish(o) && o.code_spec() == 0 {
            settling_at_last(flags, st, world, event);
        }
    } else {
        settling_on(flags, st, world, event);
        settles(flags, mv.state, world.after(mv.request), world.reply(mv.request));
    }
}

/// What a run knows that finds everything settled: nothing custom was made,
/// and the answer is the one that a settled world gives.
spec fn resting(flags: Flags, st: State, world: World, event: Event) -> bool {
    &&& repeatable(flags)
    &&& selects_one(flags)
    &&& settled(flags, world)
    &&& !st.custom_cookbook
    &&& !st.config_changed
    &&& match st.phase {
        Phase::Start => event == Event::Begin,
        Phase::DotDelivery => event == Event::Done,
        Phase::Project => !flags.local && event == Event::Present,
        Phase::Remote => !flags.local && event == Event::Present,
        Phase::Upstream => !flags.local && event == Event::Present,
        Phase::Pipeline => !flags.local && event == Event::Present,
        Phase::GeneratorCache => !flags.skip_build_cookbook && event == Event::Done,
        Phase::Cookbook => !flags.skip_build_cookbook && event == Event::Present,
        Phase::ConfigCompare => flags.custom_config && event == Event::Present,
        Phase::Origin => event == Event::Present || event == Event::Absent,
        _ => false,
    }
}

/// One step keeps `resting`: it only reads and changes nothing.
proof fn resting_on(flags: Flags, st: State, world: World, event: Event)
    requires
        resting(flags, st, world, event),
        !next(flags, st, event).request.is_final(),
    ensures
        next(flags, st, event).request.reads() || next(flags, st, event).request
            == Request::CreateDotDelivery,
        world.after(next(flags, st, event).request) == world,
        resting(
            flags,
            next(flags, st, event).state,
            world,
            world.reply(next(flags, st, event).request),
        ),
{
}

/// A run that ends while it is `resting` ends well.
proof fn resting_at_last(flags: Flags, st: State, world: World, event: Event)
    requires
        resting(flags, st, world, event),
        next(flags, st, event).request.is_final(),
    ensures
        next(flags, st, event).request matches Request::Finish(o) && o.code_spec() == 0,
{
}

/// By induction on the run: a run that starts `resting` changes nothing and
/// ends well.
proof fn rests(flags: Flags, st: State, world: World, event: Event)
    requires
        resting(flags, st, world, event),
    ensures
        run_from(flags, st, world, event).world == world,
        quiet(run_from(flags, st, world, event).trace),
        run_from(flags, st, world, event).ending matches Request::Finish(o) && o.code_spec() == 0,
    decreases 32 - st.phase.rank(),
{
    let mv = next(flags, st, event);
    next_moves_on(flags, st, event);
    if mv.request.is_final() {
        resting_at_last(flags, st, world, event);
    } else {
        let reply = world.reply(mv.request);
        resting_on(flags, st, world, event);
        rests(flags, mv.state, world, reply);
        quiet_after(mv.request, run_from(flags, mv.state, world, reply).trace);
    }
}

/// A run that ends with exit status 0 leaves everything settled.
pub proof fn success_settles(flags: Flags, world: World)
    requires
        repeatable(flags),
        run_on(flags, world).ending matches Request::Finish(o) && o.code_spec() == 0,
    ensures
        settled(flags, run_on(flags, world).world),
{
    settles(flags, State::initial(), world, Event::Begin);
}

/// A run against a world in which everything is settled is a no-op: it ends
/// with exit status 0, leaves the world as it is, and only reads on its way,
/// but for making sure of `.delivery`.
pub proof fn settled_world_is_left_alone(flags: Flags, world: World)
    requires
        repeatable(flags),
        selects_one(flags),
        settled(flags, world),
    ensures
        run_on(flags, world).world == world,
        quiet(run_on(flags, world).trace),
        run_on(flags, world).ending matches Request::Finish(o) && o.code_spec() == 0,
{
    rests(flags, State::initial(), world, Event::Begin);
}

/// Running twice is running once: after a run that ended with exit status 0,
/// a second run against the world that the first one left ends with exit
/// status 0 too, leaves that world as it is, and only reads on its way, but
/// for making sure of `.delivery`.
pub proof fn second_run_is_a_noop(flags: Flags, world: World)
    requires
        repeatable(flags),
        run_on(flags, world).ending matches Request::Finish(o) && o.code_spec() == 0,
    ensures
        run_on(flags, run_on(flags, world).world).world == run_on(flags, world).world,
        quiet(run_on(flags, run_on(flags, world).world).trace),
        run_on(flags, run_on(flags, world).world).ending matches Request::Finish(o)
            && o.code_spec() == 0,
{
    assert(selects_one(flags)) by {
        let first = next(flags, State::initial(), Event::Begin);
        assert(first.request.is_final() ==> run_on(flags, world).ending == first.request);
    }
    success_settles(flags, world);
    settled_world_is_left_alone(flags, run_on(flags, world).world);
}

/// The request commits to the feature branch.
pub open spec fn commits(request: Request) -> bool {
    request is CommitBuildCookbook || request is CommitConfig
}

/// The requests come in the order that they depend on: a commit only once
/// the feature branch was asked for, a review only once something was
/// committed. `branched` and `committed` tell what came before the trace.
pub open spec fn in_order(trace: Seq<Request>, branched: bool, committed: bool) -> bool
    decreases trace.len(),
{
    if trace.len() == 0 {
        true
    } else {
        &&& commits(trace[0]) ==> branched
        &&& trace[0] == Request::SubmitReview ==> committed
        &&& in_order(
            trace.drop_first(),
            branched || trace[0] == Request::CreateBranch,
            committed || commits(trace[0]),
        )
    }
}

/// What the phase tells of what was asked before it.
spec fn follows(st: State, branched: bool, committed: bool) -> bool {
    &&& on_branch(st.phase) ==> branched
    &&& st.phase is CommitCookbook || st.phase is CommitConfig || on_review(st.phase)
        ==> committed
}

/// One step keeps `follows`, and asks for nothing before what it depends on.
proof fn follows_on(flags: Flags, st: State, event: Event, branched: bool, committed: bool)
    requires
        follows(st, branched, committed),
        !next(flags, st, event).request.is_final(),
    ensures
        commits(next(flags, st, event).request) ==> branched,
        next(flags, st, event).request == Request::SubmitReview ==> committed,
        follows(
            next(flags, st, event).state,
            branched || next(flags, st, event).request == Request::CreateBranch,
            committed || commits(next(flags, st, event).request),
        ),
{
}

/// By induction on the run: a run that starts as `follows` has it asks in order.
proof fn ordered(
    flags: Flags,
    st: State,
    world: World,
    event: Event,
    branched: bool,
    committed: bool,
)
    requires
        follows(st, branched, committed),
    ensures
        in_order(run_from(flags, st, world, event).trace, branched, committed),
    decreases 32 - st.phase.rank(),
{
    let mv = next(flags, st, event);
    next_moves_on(flags, st, event);
    if !mv.request.is_final() {
        let rest = run_from(flags, mv.state, world.after(mv.request), world.reply(mv.request));
        follows_on(flags, st, event, branched, committed);
        ordered(
            flags,
            mv.state,
            world.after(mv.request),
            world.reply(mv.request),
            branched || mv.request == Request::CreateBranch,
            committed || commits(mv.request),
        );
        assert((seq![mv.request] + rest.trace).drop_first() =~= rest.trace);
    }
}

/// The steps of a run come in the order that they depend on: nothing is
/// committed before the feature branch was asked for, and no review is
/// submitted before something was committed.
pub proof fn steps_come_in_order(flags: Flags, world: World)
    ensures
        in_order(run_on(flags, world).trace, false, false),
{
    ordered(flags, State::initial(), world, Event::Begin, false, false);
}

} // verus!
