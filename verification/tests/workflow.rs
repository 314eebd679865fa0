use delivery::errors::DeliveryError;
use delivery::errors::Kind;
use delivery::init::RunConfig;
use delivery::init::Step;
use delivery::init::resolve_pipeline;
use delivery::init::run;
use delivery::init::setup_github_remote_msg;
use delivery::project::CustomCookbookSource;
use delivery::project::SourceCodeProvider;
use delivery::project::Type;
use delivery::workflow::Event;
use delivery::workflow::Notice;
use delivery::workflow::Outcome;
use delivery::workflow::Phase;
use delivery::workflow::Request;
use delivery::workflow::State;

fn config() -> RunConfig {
    RunConfig {
        user: "alice".to_string(),
        server: "delivery.example.com".to_string(),
        enterprise: "ent".to_string(),
        organization: "org".to_string(),
        project: "proj".to_string(),
        pipeline: "master".to_string(),
        repo_name: "repo".to_string(),
        github_org_name: String::new(),
        bitbucket_project_key: String::new(),
        no_v_ssl: false,
        generator: None,
        config_json: None,
        local: false,
        skip_build_cookbook: false,
        no_open: false,
    }
}

fn at(phase: Phase) -> State {
    State { phase: phase, custom_cookbook: false, config_changed: false }
}

fn drive(cfg: &RunConfig, events: Vec<Event>) -> (Vec<Request>, Vec<Notice>, Step) {
    let mut requests = Vec::new();
    let mut notices = Vec::new();
    let mut step = run(cfg, State::new(), Event::Begin);
    for event in events {
        requests.push(step.request);
        notices.push(step.notice);
        step = run(cfg, step.state, event);
    }
    (requests, notices, step)
}

#[test]
fn both_providers_end_the_run_at_once() {
    let mut cfg = config();
    cfg.github_org_name = "chef".to_string();
    cfg.bitbucket_project_key = "CHEF".to_string();
    let step = run(&cfg, State::new(), Event::Begin);
    assert_eq!(step.request, Request::Finish(Outcome::DuplicateProvider));
    assert_eq!(step.state.phase, Phase::Finished);
    assert_eq!(Outcome::DuplicateProvider.code(), 1);
    assert!(step.error.is_none());
}

#[test]
fn provider_without_repository_aborts_with_its_message() {
    let mut cfg = config();
    cfg.github_org_name = "chef".to_string();
    cfg.repo_name = String::new();
    let step = run(&cfg, State::new(), Event::Begin);
    assert_eq!(step.request, Request::Abort(Kind::OptionConstraint));
    let error = step.error.unwrap();
    assert_eq!(error.kind, Kind::OptionConstraint);
    assert_eq!(
        error.detail.unwrap(),
        "Missing Github Source Code Provider attributes, specify: repo-name, org-name and pipeline(default: master)"
    );
}

#[test]
fn fresh_project_on_the_server_is_created_step_by_step() {
    let cfg = config();
    let (requests, notices, last) = drive(
        &cfg,
        vec![
            Event::Done,
            Event::Absent,
            Event::Done,
            Event::Absent,
            Event::Done,
            Event::Absent,
            Event::Done,
            Event::Absent,
            Event::Done,
            Event::Done,
            Event::Absent,
            Event::Done,
            Event::Done,
        ],
    );
    assert_eq!(
        requests,
        vec![
            Request::CreateDotDelivery,
            Request::ProbeProject,
            Request::CreateProject,
            Request::ProbeRemote,
            Request::AddRemote,
            Request::ProbeUpstream,
            Request::PushHistory,
            Request::ProbePipeline,
            Request::CreatePipeline,
            Request::LocateGeneratorCache,
            Request::ProbeBuildCookbook,
            Request::GenerateDefaultCookbook,
            Request::PushBuildCookbook,
        ]
    );
    assert_eq!(
        notices,
        vec![
            Notice::Nothing,
            Notice::Nothing,
            Notice::Nothing,
            Notice::ProjectCreated,
            Notice::Nothing,
            Notice::RemoteAdded,
            Notice::Nothing,
            Notice::HistoryPushed,
            Notice::Nothing,
            Notice::PipelineCreated,
            Notice::Nothing,
            Notice::Nothing,
            Notice::CookbookGenerated,
        ]
    );
    assert_eq!(last.request, Request::Finish(Outcome::Ready));
    assert_eq!(last.notice, Notice::CookbookPushed);
    assert_eq!(Outcome::Ready.code(), 0);
    assert!(last.error.is_none());
}

#[test]
fn present_resources_are_skipped_with_a_notice() {
    let cfg = config();
    let project = run(&cfg, at(Phase::Project), Event::Present);
    assert_eq!(project.request, Request::ProbeRemote);
    assert_eq!(project.notice, Notice::ProjectExists);
    let remote = run(&cfg, at(Phase::Remote), Event::Present);
    assert_eq!(remote.request, Request::ProbeUpstream);
    assert_eq!(remote.notice, Notice::RemoteExists);
    let upstream = run(&cfg, at(Phase::Upstream), Event::Present);
    assert_eq!(upstream.request, Request::ProbePipeline);
    assert_eq!(upstream.notice, Notice::UpstreamFound);
    let pipeline = run(&cfg, at(Phase::Pipeline), Event::Present);
    assert_eq!(pipeline.request, Request::LocateGeneratorCache);
    assert_eq!(pipeline.notice, Notice::PipelineExists);
    let cookbook = run(&cfg, at(Phase::Cookbook), Event::Present);
    assert_eq!(cookbook.request, Request::Finish(Outcome::Ready));
    assert_eq!(cookbook.notice, Notice::CookbookExists);
}

#[test]
fn remote_that_points_elsewhere_aborts_the_run() {
    let cfg = config();
    let step = run(&cfg, at(Phase::Remote), Event::Mismatch);
    assert_eq!(step.request, Request::Abort(Kind::GitSetupFailed));
    let error = step.error.unwrap();
    assert_eq!(error.kind, Kind::GitSetupFailed);
    assert!(error.detail.is_none());
}

#[test]
fn collaborator_failure_is_passed_on_as_it_came() {
    let cfg = config();
    let failure = DeliveryError { kind: Kind::ApiError, detail: Some("connection refused".to_string()) };
    let step = run(&cfg, at(Phase::Pipeline), Event::Failed(failure));
    assert_eq!(step.request, Request::Abort(Kind::ApiError));
    assert_eq!(step.state.phase, Phase::Finished);
    let error = step.error.unwrap();
    assert_eq!(error.kind, Kind::ApiError);
    assert_eq!(error.detail.unwrap(), "connection refused");
}

#[test]
fn every_cause_of_failure_is_told_apart() {
    let cfg = config();
    for kind in [Kind::NoHomedir, Kind::GitFailed, Kind::ApiError, Kind::IoError, Kind::FailedToExecute] {
        let step = run(&cfg, at(Phase::GeneratorCache), Event::Failed(DeliveryError::bare(kind)));
        assert_eq!(step.request, Request::Abort(kind));
        assert_eq!(step.error.unwrap().kind, kind);
    }
}

#[test]
fn outcomes_with_exit_status_one_give_their_reason() {
    assert_eq!(
        Outcome::DuplicateProvider.reason().unwrap(),
        "Please specify just one Source Code Provider: delivery (default), github or bitbucket."
    );
    assert_eq!(
        Outcome::MissingConfigFile.reason().unwrap(),
        "You used a custom build cookbook generator, but .delivery/config.json was not created.\nPlease update your generator to create a valid .delivery/config.json or pass in a custom config."
    );
    for outcome in [
        Outcome::Ready,
        Outcome::ReadyAddOrigin,
        Outcome::ReadyLocal,
        Outcome::ReviewSubmitted,
        Outcome::PullRequest,
        Outcome::PullRequestAddOrigin,
    ] {
        assert_eq!(outcome.code(), 0);
        assert!(outcome.reason().is_none());
    }
}

#[test]
fn answer_that_was_not_asked_for_aborts_the_run() {
    let cfg = config();
    let step = run(&cfg, at(Phase::ProjectCreate), Event::Present);
    assert_eq!(step.request, Request::Abort(Kind::UnexpectedResponse));
    assert_eq!(step.error.unwrap().kind, Kind::UnexpectedResponse);
    let over = run(&cfg, at(Phase::Finished), Event::Done);
    assert_eq!(over.request, Request::Abort(Kind::UnexpectedResponse));
}

#[test]
fn github_project_is_verified_and_linked_without_remote_or_push() {
    let mut cfg = config();
    cfg.github_org_name = "chef".to_string();
    let (requests, _, last) = drive(
        &cfg,
        vec![Event::Done, Event::Present, Event::Done, Event::Done, Event::Present, Event::Absent],
    );
    assert_eq!(
        requests,
        vec![
            Request::CreateDotDelivery,
            Request::FetchGithubConfig,
            Request::LinkGithubProject,
            Request::LocateGeneratorCache,
            Request::ProbeBuildCookbook,
            Request::ProbeOrigin,
        ]
    );
    assert_eq!(last.request, Request::Finish(Outcome::ReadyAddOrigin));
}

#[test]
fn missing_provider_configuration_aborts_before_linking() {
    let mut cfg = config();
    cfg.github_org_name = "chef".to_string();
    let github = run(&cfg, at(Phase::ScpConfig), Event::Absent);
    assert_eq!(github.request, Request::Abort(Kind::NoGithubSCPConfig));
    cfg.github_org_name = String::new();
    cfg.bitbucket_project_key = "CHEF".to_string();
    let bitbucket = run(&cfg, at(Phase::ScpConfig), Event::Absent);
    assert_eq!(bitbucket.request, Request::Abort(Kind::NoBitbucketSCPConfig));
}

#[test]
fn bitbucket_project_is_linked_then_remote_and_push_but_no_pipeline() {
    let mut cfg = config();
    cfg.bitbucket_project_key = "CHEF".to_string();
    cfg.skip_build_cookbook = true;
    let (requests, _, last) = drive(
        &cfg,
        vec![Event::Done, Event::Present, Event::Done, Event::Absent, Event::Done, Event::Absent, Event::Done],
    );
    assert_eq!(
        requests,
        vec![
            Request::CreateDotDelivery,
            Request::FetchBitbucketConfig,
            Request::LinkBitbucketProject,
            Request::ProbeRemote,
            Request::AddRemote,
            Request::ProbeUpstream,
            Request::PushHistory,
        ]
    );
    assert_eq!(last.request, Request::Finish(Outcome::Ready));
}

#[test]
fn custom_generator_from_git_is_cloned_and_its_config_required() {
    let mut cfg = config();
    cfg.local = true;
    cfg.generator = Some("https://github.com/chef/generator.git".to_string());
    let (requests, notices, last) = drive(
        &cfg,
        vec![
            Event::Done,
            Event::Done,
            Event::Generator(CustomCookbookSource::Git),
            Event::Done,
            Event::Done,
            Event::Absent,
        ],
    );
    assert_eq!(
        requests,
        vec![
            Request::CreateDotDelivery,
            Request::LocateGeneratorCache,
            Request::InspectGenerator,
            Request::CloneGenerator,
            Request::GenerateCustomCookbook,
            Request::ProbeConfigFile,
        ]
    );
    assert_eq!(notices[4], Notice::GeneratorCloned);
    assert_eq!(notices[5], Notice::CustomCookbookGenerated);
    assert_eq!(last.request, Request::Finish(Outcome::MissingConfigFile));
    assert_eq!(Outcome::MissingConfigFile.code(), 1);
    assert!(last.error.is_none());
}

#[test]
fn custom_cookbook_is_committed_with_the_config_on_the_feature_branch() {
    let mut cfg = config();
    cfg.local = true;
    cfg.generator = Some("/home/alice/generator".to_string());
    let (requests, notices, last) = drive(
        &cfg,
        vec![
            Event::Done,
            Event::Done,
            Event::Generator(CustomCookbookSource::Disk),
            Event::Done,
            Event::Done,
            Event::Present,
            Event::BranchExists,
            Event::Done,
            Event::Done,
        ],
    );
    assert_eq!(
        requests,
        vec![
            Request::CreateDotDelivery,
            Request::LocateGeneratorCache,
            Request::InspectGenerator,
            Request::CopyGenerator,
            Request::GenerateCustomCookbook,
            Request::ProbeConfigFile,
            Request::CreateBranch,
            Request::CheckoutBranch,
            Request::CommitBuildCookbook { with_config: true },
        ]
    );
    assert_eq!(notices[8], Notice::BranchSwitched);
    assert_eq!(last.notice, Notice::CookbookCommitted);
    assert_eq!(last.request, Request::Finish(Outcome::ReadyLocal));
    assert!(last.state.custom_cookbook);
}

#[test]
fn custom_config_alone_is_committed_and_reviewed() {
    let mut cfg = config();
    cfg.skip_build_cookbook = true;
    cfg.local = true;
    cfg.config_json = Some("/tmp/config.json".to_string());
    let (requests, notices, last) = drive(&cfg, vec![Event::Done, Event::Absent, Event::Done, Event::Done, Event::Done]);
    assert_eq!(
        requests,
        vec![
            Request::CreateDotDelivery,
            Request::CompareConfig,
            Request::CopyConfig,
            Request::CreateBranch,
            Request::CommitConfig,
        ]
    );
    assert_eq!(notices[3], Notice::ConfigCopied);
    assert_eq!(notices[4], Notice::BranchCreated);
    assert_eq!(last.notice, Notice::ConfigCommitted);
    assert_eq!(last.request, Request::Finish(Outcome::ReadyLocal));
    assert!(last.state.config_changed);
}

#[test]
fn cookbook_and_custom_config_share_one_commit_without_the_config_in_its_message() {
    let cfg = config();
    let state = State { phase: Phase::BranchCreate, custom_cookbook: true, config_changed: true };
    let step = run(&cfg, state, Event::Done);
    assert_eq!(step.request, Request::CommitBuildCookbook { with_config: false });
    let done = run(&cfg, step.state, Event::Done);
    assert_eq!(done.request, Request::ReadHead);
}

#[test]
fn review_is_submitted_and_opened_unless_suppressed() {
    let mut cfg = config();
    let head = run(&cfg, at(Phase::Head), Event::Done);
    assert_eq!(head.request, Request::SubmitReview);
    let submitted = run(&cfg, head.state, Event::Done);
    assert_eq!(submitted.request, Request::OpenReview);
    let opened = run(&cfg, submitted.state, Event::Done);
    assert_eq!(opened.request, Request::Finish(Outcome::ReviewSubmitted));
    cfg.no_open = true;
    let quiet = run(&cfg, at(Phase::ReviewSubmit), Event::Done);
    assert_eq!(quiet.request, Request::Finish(Outcome::ReviewSubmitted));
    assert_eq!(Outcome::ReviewSubmitted.code(), 0);
}

#[test]
fn github_review_is_left_to_a_pull_request() {
    let mut cfg = config();
    cfg.github_org_name = "chef".to_string();
    let head = run(&cfg, at(Phase::Head), Event::Done);
    assert_eq!(head.request, Request::ProbeOrigin);
    assert_eq!(head.state.phase, Phase::OriginReview);
    let missing = run(&cfg, head.state, Event::Absent);
    assert_eq!(missing.request, Request::Finish(Outcome::PullRequestAddOrigin));
    let present = run(&cfg, head.state, Event::Present);
    assert_eq!(present.request, Request::Finish(Outcome::PullRequest));
    assert_eq!(Outcome::PullRequest.code(), 0);
    assert_eq!(Outcome::PullRequestAddOrigin.code(), 0);
}

#[test]
fn every_transition_but_the_last_moves_to_a_later_phase() {
    let cfg = config();
    let mut step = run(&cfg, State::new(), Event::Begin);
    let mut seen = vec![Phase::Start];
    let events = vec![Event::Done, Event::Present, Event::Present, Event::Present, Event::Present, Event::Done, Event::Present];
    for event in events {
        assert!(!seen.contains(&step.state.phase));
        seen.push(step.state.phase);
        step = run(&cfg, step.state, event);
    }
    assert_eq!(step.request, Request::Finish(Outcome::Ready));
    assert_eq!(step.state.phase, Phase::Finished);
    assert!(step.request.ends_run());
    assert!(!Request::ProbeProject.ends_run());
}

#[test]
fn flags_follow_the_configuration() {
    let mut cfg = config();
    let plain = cfg.flags();
    assert_eq!(plain.provider, delivery::workflow::Provider::Delivery);
    assert!(!plain.duplicate_provider && !plain.incomplete_provider);
    assert!(cfg.source_code_provider().unwrap().is_none());
    cfg.bitbucket_project_key = "CHEF".to_string();
    cfg.no_v_ssl = false;
    let scp = cfg.source_code_provider().unwrap().unwrap();
    assert_eq!(scp.kind, Type::Bitbucket);
    assert_eq!(scp.organization, "CHEF");
    assert_eq!(scp.repo_name, "repo");
    assert_eq!(scp.branch, "master");
    assert!(!scp.verify_ssl);
    cfg.github_org_name = "chef".to_string();
    let github = cfg.source_code_provider().unwrap().unwrap();
    assert_eq!(github.kind, Type::Github);
    assert_eq!(github.organization, "chef");
    assert!(github.verify_ssl);
    assert!(cfg.flags().duplicate_provider);
    cfg.pipeline = String::new();
    assert!(cfg.flags().incomplete_provider);
    assert_eq!(cfg.source_code_provider().unwrap_err().kind, Kind::OptionConstraint);
}

#[test]
fn remote_url_names_user_enterprise_server_and_project() {
    assert_eq!(config().delivery_git_ssh_url(), "ssh://alice@ent@delivery.example.com:8989/ent/org/proj");
}

#[test]
fn pipeline_defaults_to_master() {
    assert_eq!(resolve_pipeline(""), "master");
    assert_eq!(resolve_pipeline("release"), "release");
}

#[test]
fn github_remote_instructions_name_organization_and_repository() {
    let scp = SourceCodeProvider::new("github", "cookbooks", "chef", "master", false).unwrap();
    assert_eq!(
        setup_github_remote_msg(&scp),
        vec![
            "First, you must add your remote.".to_string(),
            "Run this if you want to use ssh:\n".to_string(),
            "git remote add origin git@github.com:chef/cookbooks.git\n".to_string(),
            "Or this for https:\n".to_string(),
            "git remote add origin https://github.com/chef/cookbooks.git\n".to_string(),
        ]
    );
}

#[test]
fn events_are_made_from_results() {
    assert!(matches!(Event::probe(true), Event::Present));
    assert!(matches!(Event::probe(false), Event::Absent));
    assert!(matches!(Event::probed(Ok(true)), Event::Present));
    assert!(matches!(Event::acted(Ok(())), Event::Done));
    assert!(matches!(Event::verified(Ok(())), Event::Present));
    let failed = Event::acted(Err(DeliveryError::bare(Kind::GitFailed)));
    match failed {
        Event::Failed(e) => assert_eq!(e.kind, Kind::GitFailed),
        _ => panic!("a failure must be passed on"),
    }
    let detailed = Event::probed(Err(DeliveryError::with_detail(Kind::IoError, "denied".to_string())));
    match detailed {
        Event::Failed(e) => assert_eq!(e.detail.unwrap(), "denied"),
        _ => panic!("a failure must be passed on"),
    }
    let unverified = Event::verified(Err(DeliveryError::bare(Kind::NoGithubSCPConfig)));
    assert!(matches!(unverified, Event::Failed(_)));
}
