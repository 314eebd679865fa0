use delivery::errors::DeliveryError;
use delivery::errors::Kind;
use delivery::project::CustomCookbookSource;
use delivery::project::SourceCodeProvider;
use delivery::project::Turn;
use delivery::project::Type;
use delivery::project::add_commit_build_cookbook;
use delivery::project::check_github_remote;
use delivery::project::checkout_feature_branch;
use delivery::project::chef_generate_build_cookbook_from_generator;
use delivery::project::create_default_build_cookbook;
use delivery::project::create_delivery_pipeline;
use delivery::project::create_delivery_project;
use delivery::project::create_delivery_remote_if_missing;
use delivery::project::create_dot_delivery;
use delivery::project::create_feature_branch_if_missing;
use delivery::project::custom_config_in_place;
use delivery::project::delivery_remote;
use delivery::project::download_or_mv_custom_build_cookbook_generator;
use delivery::project::project_or_from_cwd;
use delivery::project::push_project_content_to_delivery;
use delivery::project::root_dir;
use delivery::utils::Candidate;
use delivery::workflow::Event;

fn git_config_candidates(dirs: &[&str], found: Option<usize>) -> Vec<Candidate> {
    let mut candidates = Vec::new();
    for (i, dir) in dirs.iter().enumerate() {
        let path = if *dir == "/" { "/.git/config".to_string() } else { format!("{}/.git/config", dir) };
        candidates.push(Candidate { dir: dir.to_string(), path: path, exists: found == Some(i) });
    }
    candidates
}

#[test]
fn detect_error_if_root_project_is_not_a_git_repo() {
    // This path doesn't even exist
    // So we will expect to throw an Err(_)
    let lib_path = "/project/src/libraries";
    let candidates = git_config_candidates(&["/project/src/libraries", "/project/src", "/project", "/"], None);
    match root_dir(lib_path, &candidates) {
        Ok(_) => assert!(false),
        Err(_) => assert!(true),
    }
}

#[test]
fn root_dir_failure_names_the_directory() {
    let candidates = git_config_candidates(&["/project/src/libraries", "/project/src", "/project", "/"], None);
    let error = root_dir("/project/src/libraries", &candidates).unwrap_err();
    assert_eq!(error.kind, Kind::NoGitConfig);
    assert_eq!(error.detail.unwrap(), "current directory: \"/project/src/libraries\"");
    let none = root_dir("/", &Vec::new()).unwrap_err();
    assert_eq!(none.detail.unwrap(), "current directory: \"/\"");
}

#[test]
fn root_dir_is_the_nearest_directory_with_a_git_config() {
    let dirs = ["/delivery-cli/src/delivery", "/delivery-cli/src", "/delivery-cli", "/"];
    let candidates = git_config_candidates(&dirs, Some(2));
    assert_eq!(root_dir("/delivery-cli/src/delivery", &candidates).unwrap(), "/delivery-cli");
    let mut nested = git_config_candidates(&dirs, Some(1));
    nested[3].exists = true;
    assert_eq!(root_dir("/delivery-cli/src/delivery", &nested).unwrap(), "/delivery-cli/src");
}

#[test]
fn provider_is_made_of_its_name_and_attributes() {
    let github = SourceCodeProvider::new("github", "repo", "chef", "master", false).unwrap();
    assert_eq!(github.kind, Type::Github);
    assert_eq!(github.repo_name, "repo");
    assert_eq!(github.organization, "chef");
    assert_eq!(github.branch, "master");
    assert!(github.verify_ssl);
    let bitbucket = SourceCodeProvider::new("bitbucket", "repo", "CHEF", "release", true).unwrap();
    assert_eq!(bitbucket.kind, Type::Bitbucket);
    assert_eq!(bitbucket.branch, "release");
    assert!(!bitbucket.verify_ssl);
}

#[test]
fn provider_of_unknown_name_is_refused() {
    let error = SourceCodeProvider::new("gitlab", "repo", "chef", "master", false).unwrap_err();
    assert_eq!(error.kind, Kind::UnknownProjectType);
    assert!(error.detail.is_none());
    let empty = SourceCodeProvider::new("", "repo", "chef", "master", false).unwrap_err();
    assert_eq!(empty.kind, Kind::UnknownProjectType);
    let upper = SourceCodeProvider::new("GitHub", "repo", "chef", "master", false).unwrap_err();
    assert_eq!(upper.kind, Kind::UnknownProjectType);
}

#[test]
fn provider_with_an_empty_attribute_is_refused() {
    let github = "Missing Github Source Code Provider attributes, specify: repo-name, org-name and pipeline(default: master)";
    let bitbucket = "Missing Bitbucket Source Code Provider attributes, specify: repo-name, project-key and pipeline(default: master)";
    let no_repo = SourceCodeProvider::new("github", "", "chef", "master", false).unwrap_err();
    assert_eq!(no_repo.kind, Kind::OptionConstraint);
    assert_eq!(no_repo.detail.unwrap(), github);
    let no_org = SourceCodeProvider::new("github", "repo", "", "master", false).unwrap_err();
    assert_eq!(no_org.detail.unwrap(), github);
    let no_branch = SourceCodeProvider::new("bitbucket", "repo", "CHEF", "", false).unwrap_err();
    assert_eq!(no_branch.kind, Kind::OptionConstraint);
    assert_eq!(no_branch.detail.unwrap(), bitbucket);
}

#[test]
fn empty_server_configuration_is_a_missing_provider_configuration() {
    let github = SourceCodeProvider::new("github", "repo", "chef", "master", false).unwrap();
    assert!(github.verify_server_config("[{\"app_id\": 1}]").is_ok());
    let error = github.verify_server_config("").unwrap_err();
    assert_eq!(error.kind, Kind::NoGithubSCPConfig);
    assert!(error.detail.is_none());
    let bitbucket = SourceCodeProvider::new("bitbucket", "repo", "CHEF", "master", false).unwrap();
    assert!(bitbucket.verify_server_config(" ").is_ok());
    assert_eq!(bitbucket.verify_server_config("").unwrap_err().kind, Kind::NoBitbucketSCPConfig);
}

#[test]
fn materializer_leaves_a_present_resource_alone() {
    assert_eq!(create_delivery_project(false, &Event::Present), Turn::Settled { created: false });
    assert_eq!(create_delivery_pipeline(false, &Event::Present), Turn::Settled { created: false });
    assert_eq!(push_project_content_to_delivery(false, &Event::Present), Turn::Settled { created: false });
    assert_eq!(create_delivery_remote_if_missing(false, &Event::Present), Turn::Settled { created: false });
}

#[test]
fn materializer_creates_a_missing_resource() {
    assert_eq!(create_delivery_project(false, &Event::Absent), Turn::Act);
    assert_eq!(create_delivery_project(true, &Event::Done), Turn::Settled { created: true });
    assert_eq!(create_delivery_pipeline(false, &Event::Absent), Turn::Act);
    assert_eq!(create_delivery_pipeline(true, &Event::Done), Turn::Settled { created: true });
    assert_eq!(push_project_content_to_delivery(false, &Event::Absent), Turn::Act);
    assert_eq!(push_project_content_to_delivery(true, &Event::Done), Turn::Settled { created: true });
    assert_eq!(create_delivery_remote_if_missing(false, &Event::Absent), Turn::Act);
    assert_eq!(create_delivery_remote_if_missing(true, &Event::Done), Turn::Settled { created: true });
}

#[test]
fn materializer_passes_failures_on() {
    let failed = Event::Failed(DeliveryError::bare(Kind::ApiError));
    assert_eq!(create_delivery_project(false, &failed), Turn::Failed(Kind::ApiError));
    assert_eq!(create_delivery_pipeline(true, &failed), Turn::Failed(Kind::ApiError));
    assert_eq!(create_delivery_project(false, &Event::Done), Turn::Failed(Kind::UnexpectedResponse));
    assert_eq!(create_delivery_project(true, &Event::Absent), Turn::Failed(Kind::UnexpectedResponse));
    assert_eq!(create_delivery_project(true, &Event::Present), Turn::Failed(Kind::UnexpectedResponse));
    assert_eq!(create_delivery_project(false, &Event::BranchExists), Turn::Failed(Kind::UnexpectedResponse));
    assert_eq!(create_delivery_remote_if_missing(false, &Event::Mismatch), Turn::Failed(Kind::GitSetupFailed));
    assert_eq!(create_delivery_remote_if_missing(true, &Event::Mismatch), Turn::Failed(Kind::UnexpectedResponse));
    assert_eq!(push_project_content_to_delivery(false, &Event::Mismatch), Turn::Failed(Kind::UnexpectedResponse));
}

#[test]
fn delivery_remote_is_compared_with_the_expected_url() {
    let url = "ssh://alice@ent@delivery.example.com:8989/ent/org/proj";
    assert!(matches!(delivery_remote(None, url), Event::Absent));
    assert!(matches!(delivery_remote(Some(url), url), Event::Present));
    assert!(matches!(delivery_remote(Some("ssh://elsewhere/ent/org/proj"), url), Event::Mismatch));
    assert!(matches!(delivery_remote(Some(""), url), Event::Mismatch));
}

#[test]
fn origin_must_be_a_remote_of_its_own() {
    assert!(check_github_remote("origin\n"));
    assert!(check_github_remote("delivery\norigin\n"));
    assert!(check_github_remote("origin\ndelivery\n"));
    assert!(check_github_remote("delivery\norigin"));
    assert!(check_github_remote("origin"));
    assert!(!check_github_remote(""));
    assert!(!check_github_remote("delivery\n"));
    assert!(!check_github_remote("origin2\n"));
    assert!(!check_github_remote("my-origin\n"));
    assert!(!check_github_remote("delivery\norigins\nupstream\n"));
}

#[test]
fn existing_feature_branch_is_told_from_other_failures() {
    assert!(matches!(create_feature_branch_if_missing(Ok(())), Event::Done));
    let exists = DeliveryError {
        kind: Kind::GitFailed,
        detail: Some("STDERR: fatal: A branch named 'add-delivery-config' already exists.\n".to_string()),
    };
    assert!(matches!(create_feature_branch_if_missing(Err(exists)), Event::BranchExists));
    let other = DeliveryError { kind: Kind::GitFailed, detail: Some("fatal: not a git repository".to_string()) };
    match create_feature_branch_if_missing(Err(other)) {
        Event::Failed(e) => {
            assert_eq!(e.kind, Kind::GitFailed);
            assert_eq!(e.detail.unwrap(), "fatal: not a git repository");
        },
        _ => panic!("another failure is passed on"),
    }
    let silent = DeliveryError { kind: Kind::GitFailed, detail: None };
    assert!(matches!(create_feature_branch_if_missing(Err(silent)), Event::Failed(_)));
    let another = DeliveryError {
        kind: Kind::GitFailed,
        detail: Some("A branch named 'add-delivery-conf' already exists".to_string()),
    };
    assert!(matches!(create_feature_branch_if_missing(Err(another)), Event::Failed(_)));
}

#[test]
fn generator_with_a_root_is_copied_and_a_cached_one_is_reused() {
    assert_eq!(download_or_mv_custom_build_cookbook_generator(true, false), CustomCookbookSource::Disk);
    assert_eq!(download_or_mv_custom_build_cookbook_generator(true, true), CustomCookbookSource::Disk);
    assert_eq!(download_or_mv_custom_build_cookbook_generator(false, true), CustomCookbookSource::Cached);
    assert_eq!(download_or_mv_custom_build_cookbook_generator(false, false), CustomCookbookSource::Git);
}

#[test]
fn project_name_is_taken_from_the_option_or_from_the_directory() {
    assert_eq!(project_or_from_cwd("delivery-cli", || Ok("elsewhere".to_string())).unwrap(), "delivery-cli");
    assert_eq!(project_or_from_cwd("", || Ok("from-cwd".to_string())).unwrap(), "from-cwd");
    let error = project_or_from_cwd("", || Err(DeliveryError::bare(Kind::NoGitConfig))).unwrap_err();
    assert_eq!(error.kind, Kind::NoGitConfig);
    let named = project_or_from_cwd("named", || Err(DeliveryError::bare(Kind::NoGitConfig)));
    assert_eq!(named.unwrap(), "named");
}

#[test]
fn custom_config_with_the_same_content_is_in_place() {
    let json = "{\"version\": \"2\", \"build_cookbook\": {\"path\": \".delivery/build-cookbook\"}}";
    assert!(matches!(custom_config_in_place(json, Some(json)), Event::Present));
    assert!(matches!(custom_config_in_place(json, Some("{}")), Event::Absent));
    assert!(matches!(custom_config_in_place(json, None), Event::Absent));
    assert!(matches!(custom_config_in_place("", Some("")), Event::Present));
}

#[test]
fn commands_are_spelled_out() {
    assert_eq!(create_dot_delivery(), ".delivery");
    assert_eq!(create_default_build_cookbook(), vec!["generate", "build-cookbook", ".delivery/build-cookbook"]);
    assert_eq!(
        chef_generate_build_cookbook_from_generator("/home/alice/.delivery/cache/generator-cookbooks/pcb"),
        vec![
            "generate",
            "cookbook",
            ".delivery/build-cookbook",
            "-g",
            "/home/alice/.delivery/cache/generator-cookbooks/pcb"
        ]
    );
    assert_eq!(checkout_feature_branch(true), vec!["checkout", "-b", "add-delivery-config"]);
    assert_eq!(checkout_feature_branch(false), vec!["checkout", "add-delivery-config"]);
}

#[test]
fn cookbook_commit_names_the_config_unless_a_custom_one_was_passed() {
    let (add, commit) = add_commit_build_cookbook(&false);
    assert_eq!(add, vec!["add", ".delivery"]);
    assert_eq!(commit, vec!["commit", "-m", "Adds Delivery build cookbook and config"]);
    let (add, commit) = add_commit_build_cookbook(&true);
    assert_eq!(add, vec!["add", ".delivery"]);
    assert_eq!(commit, vec!["commit", "-m", "Adds Delivery build cookbook"]);
}
