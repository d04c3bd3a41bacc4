use lenra_cli::cli::new::{found_template, New};
use lenra_cli::errors::Error;
use lenra_cli::git::Repository;
use lenra_cli::template::{choose_repository, templates_search_query};

const NODE_TEMPLATE_HTTP_URL: &str = "https://github.com/lenra-io/template-javascript.git";
const NODE_TEMPLATE_SSH_URL: &str = "git@github.com:lenra-io/template-javascript.git";
const BUN_TEMPLATE_HTTP_URL: &str = "https://github.com/taorepoara/lenra-template-bun-js.git";

fn new_with(topics: &[&str]) -> New {
    New {
        topics: topics.iter().map(|t| t.to_string()).collect(),
        ..Default::default()
    }
}

fn repo(name: &str, description: &str, url: &str, stars: u32) -> Repository {
    Repository {
        name: name.to_string(),
        description: description.to_string(),
        url: url.to_string(),
        stars,
    }
}

#[test]
fn no_matching_template() {
    let new = new_with(&["js"]);
    assert_eq!(new.path, ".");
    assert_eq!(new.topics, vec!["js".to_string()]);
    assert!(new.template_url().is_none());
    let query = templates_search_query(&new.topics).unwrap();
    assert_eq!(query, "topic:lenra+topic:template+topic:js");
    match found_template(&vec![]) {
        Err(Error::NoTemplateFound) => (),
        other => panic!("wrong result {:?}", other),
    }
}

#[test]
fn one_matching_template() {
    let new = new_with(&["js"]);
    assert_eq!(new.path, ".");
    assert!(new.template_url().is_none());
    let repos = vec![repo("template-javascript", "Javascript template", NODE_TEMPLATE_HTTP_URL, 0)];
    assert_eq!(found_template(&repos).unwrap(), Some(NODE_TEMPLATE_HTTP_URL.to_string()));
}

#[test]
fn two_matching_templates() {
    let new = new_with(&["js"]);
    assert!(new.template_url().is_none());
    let repos = vec![
        repo("template-javascript", "Javascript template", NODE_TEMPLATE_HTTP_URL, 1),
        repo("template-bun", "Javascript template with Bun.sh", BUN_TEMPLATE_HTTP_URL, 0),
    ];
    assert_eq!(found_template(&repos).unwrap(), None);
    let chosen = choose_repository(&repos, "1").unwrap();
    assert_eq!(chosen.url, NODE_TEMPLATE_HTTP_URL);
    let chosen = choose_repository(&repos, "2").unwrap();
    assert_eq!(chosen.url, BUN_TEMPLATE_HTTP_URL);
    assert!(choose_repository(&repos, "3").is_none());
    assert!(choose_repository(&repos, "0").is_none());
    assert!(choose_repository(&repos, "one").is_none());
}

#[test]
fn from_http_url() {
    let new = new_with(&[NODE_TEMPLATE_HTTP_URL]);
    assert_eq!(new.path, ".");
    assert_eq!(new.topics, vec![NODE_TEMPLATE_HTTP_URL.to_string()]);
    assert_eq!(new.template_url(), Some(NODE_TEMPLATE_HTTP_URL.to_string()));
}

#[test]
fn from_ssh_url() {
    let new = new_with(&[NODE_TEMPLATE_SSH_URL]);
    assert_eq!(new.topics, vec![NODE_TEMPLATE_SSH_URL.to_string()]);
    assert_eq!(new.template_url(), Some(NODE_TEMPLATE_SSH_URL.to_string()));
}

#[test]
fn url_among_several_topics_is_a_topic() {
    let new = new_with(&[NODE_TEMPLATE_HTTP_URL, "rust"]);
    assert!(new.template_url().is_none());
}

#[test]
fn invalid_topic_is_refused() {
    let topics = vec!["rust".to_string(), "Not_Valid".to_string(), "bad--".to_string()];
    match templates_search_query(&topics) {
        Err(Error::InvalidGitHubTopic(t)) => assert_eq!(t, "Not_Valid"),
        other => panic!("wrong result {:?}", other),
    }
    let topics = vec!["rust".to_string(), "web-app".to_string()];
    assert_eq!(
        templates_search_query(&topics).unwrap(),
        "topic:lenra+topic:template+topic:rust+topic:web-app"
    );
}
