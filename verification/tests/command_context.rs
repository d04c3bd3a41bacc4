use lenra_cli::cli::CommandContext;
use lenra_cli::config::Application;
use lenra_cli::errors::Error;

fn context(config_path: &str, config: Option<Application>) -> CommandContext {
    let mut context = CommandContext::default();
    context.config_path = config_path.to_string();
    context.config = config;
    context
}

fn app_with_path(path: Option<&str>) -> Application {
    Application {
        path: path.map(|p| p.to_string()),
        ..Default::default()
    }
}

#[test]
fn test_resolve_path() {
    let context = context("/home/user/lenra/config.toml", None);
    let resolved_path = context.resolve_path("src/main.rs");
    assert_eq!(resolved_path, "/home/user/lenra/src/main.rs");
}

#[test]
fn test_get_app_workdir() {
    let context = context("/home/user/lenra/config.toml", None);
    let workdir = context.get_app_workdir();
    assert_eq!(workdir, "/home/user/lenra");
}

#[test]
fn test_get_app_path_config() {
    let context = context("", Some(app_with_path(Some("test_app"))));
    let app_path = context.get_app_path_config().unwrap();
    assert_eq!(app_path, "test_app");
}

#[test]
fn mod_test_get_app_path_config() {
    let mut context = CommandContext::default();
    let app = Application {
        path: Some("test_app".to_string()),
        ..Default::default()
    };
    context.config = Some(app);
    let app_path = context.get_app_path_config().unwrap();
    assert_eq!(app_path, "test_app");
}

#[test]
fn app_path_config_defaults_to_current_dir() {
    let context = context("", Some(app_with_path(None)));
    assert_eq!(context.get_app_path_config(), Some(".".to_string()));
    let unloaded = CommandContext::default();
    assert_eq!(unloaded.get_app_path_config(), None);
}

#[test]
fn resolve_path_simple() {
    let context = context("", Some(app_with_path(None)));
    assert_eq!(context.resolve_path(".lenra/compose.yml"), "./.lenra/compose.yml");
}

#[test]
fn resolve_path_app_path() {
    let context = context("", Some(app_with_path(Some("test_app"))));
    assert_eq!(context.resolve_path(".lenra/compose.yml"), "test_app/.lenra/compose.yml");
}

#[test]
fn resolve_path_app_path_and_config_file() {
    let context = context("test/config/lenra.yml", Some(app_with_path(Some("test_app"))));
    assert_eq!(
        context.resolve_path(".lenra/compose.yml"),
        "test/config/test_app/.lenra/compose.yml"
    );
}

#[test]
fn resolve_path_app_path_in_parent_dir() {
    let context = context("", Some(app_with_path(Some("../test_app"))));
    assert_eq!(context.resolve_path(".lenra/compose.yml"), "../test_app/.lenra/compose.yml");
}

#[test]
fn resolve_path_app_path_in_parent_dir_and_config_file() {
    let context = context("test/config/lenra.yml", Some(app_with_path(Some("../test_app"))));
    assert_eq!(
        context.resolve_path(".lenra/compose.yml"),
        "test/config/../test_app/.lenra/compose.yml"
    );
}

#[test]
fn get_app_workdir_cases() {
    assert_eq!(context("", Some(app_with_path(None))).get_app_workdir(), ".");
    assert_eq!(context("", Some(app_with_path(Some("test_app")))).get_app_workdir(), "test_app");
    assert_eq!(
        context("test/config/lenra.yml", Some(app_with_path(Some("test_app")))).get_app_workdir(),
        "test/config/test_app"
    );
    assert_eq!(
        context("", Some(app_with_path(Some("../test_app")))).get_app_workdir(),
        "../test_app"
    );
    assert_eq!(
        context("test/config/lenra.yml", Some(app_with_path(Some("../test_app"))))
            .get_app_workdir(),
        "test/config/../test_app"
    );
}

#[test]
fn load_config_keeps_the_loaded_configuration() {
    let mut context = CommandContext::default();
    let loaded = context.load_config(Ok(app_with_path(Some("test_app"))));
    assert!(loaded.is_ok());
    assert_eq!(
        context.config.as_ref().and_then(|app| app.path.clone()),
        Some("test_app".to_string())
    );
}

#[test]
fn load_config_error_leaves_the_context() {
    let mut context = CommandContext::default();
    let loaded = context.load_config(Err(Error::Custom("The config file has no extension".into())));
    match loaded {
        Err(Error::Custom(msg)) => assert_eq!(msg, "The config file has no extension"),
        other => panic!("unexpected {:?}", other),
    }
    assert!(context.config.is_none());
}

#[test]
fn config_file_extensions() {
    use_extension_check();
}

fn use_extension_check() {
    assert!(lenra_cli::config::check_config_file_extension("lenra.yml").is_ok());
    assert!(lenra_cli::config::check_config_file_extension("dir/lenra.yaml").is_ok());
    assert!(lenra_cli::config::check_config_file_extension("lenra.json").is_ok());
    match lenra_cli::config::check_config_file_extension("lenra.toml") {
        Err(Error::Custom(m)) => assert_eq!(m, "Not managed config file extension toml"),
        other => panic!("unexpected {:?}", other),
    }
    match lenra_cli::config::check_config_file_extension("lenra") {
        Err(Error::Custom(m)) => assert_eq!(m, "The config file has no extension"),
        other => panic!("unexpected {:?}", other),
    }
}
