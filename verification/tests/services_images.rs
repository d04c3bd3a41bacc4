use std::collections::hash_map::DefaultHasher;
use std::hash::{Hash, Hasher};

use lenra_cli::config::{Dev, Image};
use lenra_cli::docker_compose::{
    get_services_images, Service, DEVTOOL_DEFAULT_TAG, DEVTOOL_IMAGE, MONGO_IMAGE,
    MONGO_IMAGE_TAG, POSTGRES_IMAGE, POSTGRES_IMAGE_TAG,
};
use regex::Regex;

fn current_dir() -> Option<String> {
    Some("lenra_cli".to_string())
}

#[test]
fn basic() {
    let app_tag = "test";
    let images = get_services_images(
        &Some(Dev {
            app: Some(Image { image: None, tag: Some(app_tag.into()) }),
            ..Default::default()
        }),
        current_dir(),
        None,
    );
    assert_eq!(images.get(&Service::App), format!("lenra/app/lenra_cli:{}", app_tag));
    assert_eq!(
        images.get(&Service::Devtool),
        format!("{}:{}", DEVTOOL_IMAGE, DEVTOOL_DEFAULT_TAG)
    );
    assert_eq!(
        images.get(&Service::Postgres),
        format!("{}:{}", POSTGRES_IMAGE, POSTGRES_IMAGE_TAG)
    );
    assert_eq!(images.get(&Service::Mongo), format!("{}:{}", MONGO_IMAGE, MONGO_IMAGE_TAG));
}

#[test]
fn branch_name() {
    let images = get_services_images(&None, current_dir(), Some("test".to_string()));
    assert_eq!(images.get(&Service::App), "lenra/app/lenra_cli:test".to_string());
}

#[test]
fn path_branch_name() {
    let images = get_services_images(
        &None,
        current_dir(),
        Some("prefixed/branch-name_withUnderscore".to_string()),
    );
    assert_eq!(
        images.get(&Service::App),
        "lenra/app/lenra_cli:prefixed-branch-name_withUnderscore".to_string()
    );
}

#[test]
fn long_branch_name() {
    let branch_name =
        "prefixed/branch-name/with_many-many.many_many-many-many/underscore".to_string();
    let re = Regex::new(r"[^A-Za-z0-9._-]").unwrap();
    let tag = re.replace_all(branch_name.as_str(), "-").to_string();
    let mut hacher = DefaultHasher::new();
    tag.hash(&mut hacher);
    let hash = format!("{:X}", hacher.finish());
    let tag = format!("{}{}", tag.chars().take(63 - hash.len()).collect::<String>(), hash);

    let images = get_services_images(&None, current_dir(), Some(branch_name));
    assert_eq!(images.get(&Service::App), format!("lenra/app/lenra_cli:{}", tag));
}

#[test]
fn defaults_without_directory_or_branch() {
    let images = get_services_images(&None, None, None);
    assert_eq!(images.get(&Service::App), "lenra/app/my:latest");
    let custom = get_services_images(
        &Some(Dev {
            postgres: Some(Image { image: Some("pg".into()), tag: None }),
            ..Default::default()
        }),
        None,
        None,
    );
    assert_eq!(custom.get(&Service::Postgres), "pg:13");
}

#[test]
fn image_reference() {
    let image = Image { image: Some("repo/img".into()), tag: None };
    assert_eq!(image.to_image("default", "latest"), "repo/img:latest");
    let image = Image { image: None, tag: Some("v1".into()) };
    assert_eq!(image.to_image("default", "latest"), "default:v1");
}

#[test]
fn service_names() {
    assert_eq!(Service::App.to_str(), "app");
    assert_eq!(Service::Devtool.to_str(), "devtool");
    assert_eq!(Service::Postgres.to_str(), "postgres");
    assert_eq!(Service::Mongo.to_str(), "mongodb");
}
