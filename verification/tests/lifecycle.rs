use lenra_cli::cli::CommandContext;
use lenra_cli::config::Application;
use lenra_cli::docker_compose::Service;
use lenra_cli::errors::Error;
use lenra_cli::lenra::{
    app_access_message, app_config, check_built, check_project_dir, check_started_services,
    checkout_answer, created_template_data, new_project_files, template_refresh, upgrade_step,
    upgraded_template_data, TemplateRefresh, UpgradeStep,
};
use lenra_cli::template::TemplateData;

#[test]
fn upgrade_up_to_date() {
    let data = TemplateData { template: "t".into(), commit: Some("abc".into()) };
    assert!(matches!(upgrade_step(&data, "abc"), UpgradeStep::UpToDate));
}

#[test]
fn upgrade_by_patch() {
    let data = TemplateData { template: "t".into(), commit: Some("abc".into()) };
    match upgrade_step(&data, "def") {
        UpgradeStep::Patch { patch_file, diff, apply } => {
            assert_eq!(patch_file, ".lenra/patch.abc-def.diff");
            assert_eq!(diff, vec!["--git-dir", ".lenra/template.git", "diff", "abc", "def"]);
            assert_eq!(apply, vec!["apply", ".lenra/patch.abc-def.diff"]);
        }
        other => panic!("unexpected {:?}", other),
    }
    let upgraded = upgraded_template_data(&data, "def");
    assert_eq!(upgraded.template, "t");
    assert_eq!(upgraded.commit, Some("def".to_string()));
}

#[test]
fn upgrade_by_checkout() {
    let data = TemplateData { template: "t".into(), commit: None };
    match upgrade_step(&data, "def") {
        UpgradeStep::Checkout(args) => assert_eq!(
            args,
            vec!["--git-dir", ".lenra/template.git", "checkout", "HEAD", "--", "."]
        ),
        other => panic!("unexpected {:?}", other),
    }
}

#[test]
fn template_refreshes() {
    match template_refresh(true, "https://x/t.git") {
        TemplateRefresh::Pull(args) => {
            assert_eq!(args, vec!["--git-dir", ".lenra/template.git", "pull"])
        }
        other => panic!("unexpected {:?}", other),
    }
    match template_refresh(false, "https://x/t.git") {
        TemplateRefresh::Clone(args, dir) => {
            assert_eq!(dir, ".lenra/template.tmp");
            assert_eq!(args, vec!["clone", "https://x/t.git", ".lenra/template.tmp"]);
        }
        other => panic!("unexpected {:?}", other),
    }
}

#[test]
fn checkout_answers() {
    assert_eq!(checkout_answer("y"), Some(true));
    assert_eq!(checkout_answer("  YES \n"), Some(true));
    assert_eq!(checkout_answer(""), Some(false));
    assert_eq!(checkout_answer("N"), Some(false));
    assert_eq!(checkout_answer("no"), Some(false));
    assert_eq!(checkout_answer("maybe"), None);
}

#[test]
fn project_creation() {
    assert!(check_project_dir(false).is_ok());
    assert!(matches!(check_project_dir(true), Err(Error::ProjectPathNotEmpty)));
    let files = new_project_files("my-app");
    assert_eq!(files.template_file, "my-app/.template");
    assert_eq!(files.git_dir, "my-app/.git");
    assert_eq!(files.cache_dir, "my-app/.lenra");
    assert_eq!(files.template_git_dir, "my-app/.lenra/template.git");
    let data = created_template_data("https://x/t.git", "abc");
    assert_eq!(data.template, "https://x/t.git");
    assert_eq!(data.commit, Some("abc".to_string()));
}

#[test]
fn environment_checks() {
    assert!(matches!(check_built(false), Err(Error::NeverBuiltApp)));
    assert!(check_built(true).is_ok());
    let three = vec![Service::App, Service::Devtool, Service::Postgres];
    assert!(matches!(check_started_services(&three), Err(Error::NotStartedServices)));
    let four = vec![Service::App, Service::Devtool, Service::Postgres, Service::Mongo];
    assert!(check_started_services(&four).is_ok());
    assert_eq!(app_access_message(), "\nApplication available at http://localhost:4000\n");
}

#[test]
fn app_configuration() {
    let mut context = CommandContext::default();
    match app_config(&context) {
        Err(Error::Custom(m)) => assert_eq!(m, "The config is missing"),
        other => panic!("unexpected {:?}", other),
    }
    context.config = Some(Application { components_api: "1.0".into(), ..Default::default() });
    assert_eq!(app_config(&context).unwrap().components_api, "1.0");
}
