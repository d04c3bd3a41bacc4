use lenra_cli::app_checker::{
    JsonRoute, LenraRoute, Manifest, ManifestContent, RootView, Route,
    RoutesDefinition, ViewComponent,
};
use lenra_cli::cli::build_command::Build;
use lenra_cli::cli::dev::Dev;
use lenra_cli::cli::logs::Logs;
use lenra_cli::cli::tasks::Task;
use lenra_cli::devtool::stop_app_env_command;
use lenra_cli::cli::terminal::Expose;
use lenra_cli::cli::CommandContext;
use lenra_cli::docker_compose::{
    compose_build_args, compose_down_args, compose_exec_args, compose_pull_args,
    compose_running_args, compose_up_args, running_services, Service,
};
use lenra_cli::errors::{CommandError, Error};
use lenra_cli::git::{current_branch_args, current_commit_args, is_git_repo_url, PlatformRepository};
use lenra_cli::github::{
    is_github_topic, repositories_of, search_url, GitHubRepository, GitHubSearchRepoResponse,
};
use lenra_cli::matching::{array0, int_value, object0, object1, object3, text_value, Value};

#[test]
fn error_messages() {
    assert_eq!(Error::NoTemplateFound.message(), "No template found");
    assert_eq!(Error::Check.message(), "Check error");
    assert_eq!(
        Error::ServiceNotExposed(Service::Mongo).message(),
        "The mongodb service is not exposed"
    );
    assert_eq!(
        Error::InvalidGitHubTopic("A".into()).message(),
        "The next GitHub topic is not correct: A"
    );
    let failed = CommandError {
        command: "\"git\" \"pull\"".into(),
        code: Some(-1),
        stdout: "out".into(),
        stderr: "err".into(),
    };
    assert_eq!(
        Error::Command(failed).message(),
        "The command execution failed: Command exec exited with code -1:\n\tcmd: \"git\" \"pull\"\n\tstdout: out\n\tstderr: err"
    );
}

#[test]
fn subcommand_tasks() {
    assert_eq!(
        Build { production: true }.tasks(),
        vec![Task::GenerateAppEnv { production: true }, Task::BuildApp]
    );
    assert!(Dev { attach: true }.tasks().is_empty());
    assert_eq!(Dev { attach: false }.tasks().len(), 4);
    assert_eq!(
        Task::StartEnv.loader_texts(),
        ("Start app environment...", "App environment started", "Failed starting app")
    );
    assert_eq!(
        Task::CreateProject.loader_texts(),
        ("Creating new project...", "Project created", "Failed creating new project")
    );
}

#[test]
fn manifest_requests() {
    let root = Manifest { manifest: ManifestContent::RootView(RootView { root_view: "main".into() }) };
    let requests = root.check_requests();
    assert_eq!(requests.len(), 1);
    let expected = object3("data", array0(), "props", object0(), "view", text_value("main"));
    assert!(requests[0].eq_value(&expected));

    let routes = Manifest {
        manifest: ManifestContent::RoutesDefinition(RoutesDefinition {
            lenra_routes: Some(vec![LenraRoute {
                path: "/".into(),
                view: ViewComponent {
                    name: "home".into(),
                    props: Some(object1("size", int_value(2, 0x4000000000000000))),
                },
            }]),
            json_routes: Some(vec![JsonRoute { path: "/api".into(), view: "data".into() }]),
        }),
    };
    let requests = routes.check_requests();
    assert_eq!(requests.len(), 2);
    let first = object3(
        "data",
        array0(),
        "props",
        object1("size", int_value(2, 0x4000000000000000)),
        "view",
        text_value("home"),
    );
    assert!(requests[0].eq_value(&first));
    let second = object3("data", array0(), "props", object0(), "view", text_value("data"));
    assert!(requests[1].eq_value(&second));
    let route = JsonRoute { path: "/api".into(), view: "data".into() };
    assert_eq!(route.path(), "/api");
}

#[test]
fn github_search() {
    assert_eq!(
        search_url("topic:lenra+topic:template"),
        "https://api.github.com/search/repositories?q=topic:lenra+topic:template&sort=stargazers"
    );
    assert!(is_github_topic("rust"));
    assert!(is_github_topic("web-app2"));
    assert!(!is_github_topic("-rust"));
    assert!(!is_github_topic("Rust"));
    let response = GitHubSearchRepoResponse {
        total_count: 1,
        items: vec![GitHubRepository {
            full_name: "lenra-io/template-rust".into(),
            description: "Rust template".into(),
            clone_url: "https://github.com/lenra-io/template-rust.git".into(),
            stargazers_count: 3,
        }],
    };
    let repos = repositories_of(&response);
    assert_eq!(repos.len(), 1);
    assert_eq!(repos[0].name, "lenra-io/template-rust");
    assert_eq!(repos[0].url, "https://github.com/lenra-io/template-rust.git");
    assert_eq!(repos[0].stars, 3);
    assert_eq!(response.items[0].to_repository().description, "Rust template");
}

#[test]
fn git_and_compose_arguments() {
    assert_eq!(current_branch_args(&None), vec!["rev-parse", "--abbrev-ref", "HEAD"]);
    assert_eq!(
        current_commit_args(&Some("app/.git".into())),
        vec!["--git-dir", "app/.git", "rev-parse", "HEAD"]
    );
    assert!(is_git_repo_url("https://github.com/lenra-io/template-rust.git"));
    assert!(!is_git_repo_url("rust"));
    assert_eq!(
        compose_up_args(".lenra/docker-compose.yml"),
        vec!["-f", ".lenra/docker-compose.yml", "up", "-d", "--wait"]
    );
    assert_eq!(compose_build_args("c.yml"), vec!["-f", "c.yml", "build"]);
    assert_eq!(
        compose_exec_args("c.yml", Service::Devtool, &stop_app_env_command()),
        vec![
            "-f",
            "c.yml",
            "exec",
            "devtool",
            "bin/dev_tools",
            "rpc",
            "ApplicationRunner.Environment.DynamicSupervisor.stop_env(1)"
        ]
    );
}

#[test]
fn logs_arguments() {
    let logs = Logs {
        follow: true,
        since: Some("2024-01-01T00:00:00Z".into()),
        services: vec![Service::App, Service::Postgres],
        ..Default::default()
    };
    assert_eq!(
        logs.compose_args(),
        vec![
            "logs",
            "--tail",
            "all",
            "--follow",
            "--since",
            "2024-01-01T00:00:00Z",
            "app",
            "postgres"
        ]
    );
}

#[test]
fn values_match_themselves() {
    let v = object1("list", Value::Array(vec![int_value(1, 0x3ff0000000000000), Value::Null]));
    assert!(v.check_match(&v.clone_value()).is_empty());
    let shorter = object1("list", Value::Array(vec![int_value(1, 0x3ff0000000000000)]));
    let errs = v.check_match(&shorter);
    assert_eq!(errs.len(), 1);
    assert_eq!(errs[0].path, "list.1");
}

#[test]
fn compose_lifecycle_arguments() {
    assert_eq!(compose_down_args("c.yml"), vec!["-f", "c.yml", "down"]);
    assert_eq!(
        compose_pull_args("c.yml", &vec![Service::Devtool, Service::Mongo]),
        vec!["-f", "c.yml", "pull", "devtool", "mongodb"]
    );
    assert_eq!(
        compose_running_args("c.yml"),
        vec!["-f", "c.yml", "ps", "--services", "--filter", "status=running"]
    );
    assert_eq!(
        running_services("app\nmongodb\nother\npostgres\n"),
        vec![Service::App, Service::Mongo, Service::Postgres]
    );
    assert!(running_services("").is_empty());
}

#[test]
fn exposure() {
    let expose = Expose::default();
    assert_eq!(expose.tasks(), vec![Task::GenerateAppEnv { production: false }, Task::StartEnv]);
    let mut context = CommandContext::default();
    context.verbose = true;
    context.expose_services(&expose.services);
    assert_eq!(context.expose, vec![Service::App, Service::Postgres, Service::Mongo]);
    assert!(context.verbose);
}
