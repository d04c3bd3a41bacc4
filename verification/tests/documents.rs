use lenra_cli::app_checker::{check_answer, schema_file, schema_report, SchemaCheck, VIEW_RESULT_SCHEMA};
use lenra_cli::docker_compose::{
    generate_docker_compose_content, Compose, ComposeBuild, ComposeHealthcheck,
    ComposeHealthcheckTest, ComposeMemory, ComposeService, ServiceImages,
};
use lenra_cli::dofigen::{Artifact, Builder, DofigenImage, Healthcheck, DOFIGEN_HEADER};
use lenra_cli::errors::Error;
use lenra_cli::json::Json;

#[test]
fn json_text_of_documents() {
    let doc = Json::Obj(vec![
        ("a".to_string(), Json::Arr(vec![Json::Int(1), Json::Int(20), Json::Bool(false)])),
        ("b \"c\"".to_string(), Json::Str("x\ny".to_string())),
        ("e".to_string(), Json::Obj(vec![])),
        ("f".to_string(), Json::Arr(vec![])),
    ]);
    assert_eq!(doc.to_text(), r#"{"a":[1,20,false],"b \"c\"":"x\ny","e":{},"f":[]}"#);
    assert_eq!(Json::Int(0).to_text(), "0");
    assert_eq!(Json::Int(18446744073709551615).to_text(), "18446744073709551615");
}

fn small_image() -> DofigenImage {
    DofigenImage {
        image: "node:18".to_string(),
        envs: Some(vec![("A".to_string(), "1".to_string())]),
        builders: Some(vec![Builder {
            image: "rust".to_string(),
            script: Some(vec!["cargo build".to_string()]),
            ..Default::default()
        }]),
        artifacts: Some(vec![Artifact {
            builder: "builder-0".to_string(),
            source: "/a".to_string(),
            destination: "/b".to_string(),
        }]),
        context: Some(vec!["src".to_string()]),
        ignores: Some(vec!["target".to_string()]),
        ports: Some(vec![8080]),
        healthcheck: Some(Healthcheck {
            cmd: "curl x".to_string(),
            retries: Some(3),
            ..Default::default()
        }),
        ..Default::default()
    }
}

#[test]
fn dofigen_descriptor_json() {
    assert_eq!(
        small_image().to_json().to_text(),
        [
            r#"{"image":"node:18","envs":{"A":"1"},"artifacts":[{"builder":"builder-0","source":"/a","destination":"/b"}],"#,
            r#""builders":[{"image":"rust","script":["cargo build"]}],"context":["src"],"ignores":["target"],"#,
            r#""ports":[8080],"healthcheck":{"cmd":"curl x","retries":3}}"#,
        ]
        .concat()
    );
}

#[test]
fn dofigen_artifacts_resolve() {
    let image = small_image();
    assert!(image.can_write());
    let mut unknown = small_image();
    unknown.artifacts.as_mut().unwrap()[0].builder = "builder-1".to_string();
    assert!(!unknown.can_write());
    let mut named = small_image();
    named.builders.as_mut().unwrap()[0].name = Some("build".to_string());
    assert!(!named.can_write());
    named.artifacts.as_mut().unwrap()[0].builder = "build".to_string();
    assert!(named.can_write());
}

#[test]
fn dofigen_writes_docker_files() {
    let (dockerfile, dockerignore) = small_image().docker_files().unwrap();
    assert_eq!(
        dockerignore,
        "# This file is generated by Dofigen v1.4.1\n# https://github.com/lenra-io/dofigen\n\n**\n!src\ntarget\n"
    );
    assert!(dockerfile.starts_with(DOFIGEN_HEADER));
    assert!(dockerfile.contains("FROM rust AS builder-0\n"));
    assert!(dockerfile.contains("FROM node:18 AS runtime\n"));
    assert!(dockerfile.contains("ENV \\\n    A=\"1\"\n"), "{}", dockerfile);
    assert!(dockerfile.contains("COPY --link --chown=1000:1000 --from=builder-0 \"/a\" \"/b\"\n"));
    assert!(dockerfile.contains("EXPOSE 8080\n"));
    assert!(dockerfile.contains("HEALTHCHECK --retries=3 CMD curl x\n"));
}

fn service(image: &str) -> ComposeService {
    ComposeService {
        image: image.to_string(),
        ports: None,
        build: None,
        user: None,
        memory: None,
        environment: None,
        healthcheck: None,
        depends_on: None,
        command: None,
    }
}

#[test]
fn compose_file_as_yaml() {
    let compose = Compose { services: vec![("app".to_string(), service("my:latest"))] };
    assert_eq!(
        compose.to_json().to_text(),
        r#"{"services":{"app":{"image":"my:latest"}}}"#
    );
    assert_eq!(compose.to_yaml().unwrap(), "services:\n  app:\n    image: my:latest\n");
    let mut full = service("db");
    full.ports = Some(vec!["5432:5432".to_string()]);
    full.build = Some(ComposeBuild { context: ".".to_string(), dockerfile: "Dockerfile".to_string() });
    full.user = Some("12000".to_string());
    full.memory = Some(ComposeMemory { limit: "256M".to_string(), reservation: "128M".to_string() });
    full.environment = Some(vec![("B".to_string(), "2".to_string()), ("A".to_string(), "1".to_string())]);
    full.healthcheck = Some(ComposeHealthcheck {
        test: ComposeHealthcheckTest::Multiple(vec!["CMD".to_string(), "true".to_string()]),
        start_period: Some("5s".to_string()),
        interval: None,
        timeout: None,
        retries: 5,
        disable: false,
    });
    full.depends_on = Some(vec![("app".to_string(), "service_healthy".to_string())]);
    full.command = Some("run".to_string());
    let yaml = Compose { services: vec![("db".to_string(), full)] }.to_yaml().unwrap();
    assert!(yaml.contains("    environment:\n      B: '2'\n      A: '1'\n"), "{}", yaml);
    assert!(yaml.contains("    ports:\n    - 5432:5432\n"), "{}", yaml);
    assert!(yaml.contains("        limits:\n          memory: 256M\n"), "{}", yaml);
    assert!(yaml.contains("      app:\n        condition: service_healthy\n"), "{}", yaml);
    assert!(yaml.contains("    command: run\n"), "{}", yaml);
}

#[test]
fn compose_content_of_environment() {
    let images = ServiceImages {
        app: "lenra/app/my:latest".to_string(),
        devtool: "lenra/devtools:beta".to_string(),
        postgres: "postgres:13".to_string(),
        mongo: "mongo:5.0.11-focal".to_string(),
    };
    let yaml = generate_docker_compose_content("Dockerfile", &None, &vec![], false, images).unwrap();
    assert!(yaml.starts_with("services:\n  app:\n"), "{}", yaml);
    assert!(yaml.contains("  devtool:\n"));
    assert!(yaml.contains("  postgres:\n"));
    assert!(yaml.contains("  mongodb:\n"));
    assert!(yaml.contains("image: postgres:13\n"));
}

#[test]
fn answers_checked_against_schemas() {
    let schema = r#"{"type":"object","required":["a"]}"#;
    assert_eq!(check_answer("./s.json", schema, r#"{"a":1}"#).unwrap(), Vec::<String>::new());
    let lines = check_answer("./s.json", schema, "{}").unwrap();
    assert_eq!(lines.len(), 2);
    assert_eq!(lines[0], "Validation failed.");
    assert!(lines[1].starts_with("error: "));
    assert!(lines[1].contains("\"a\""));
    assert!(matches!(check_answer("./s.json", "nope", "{}"), Err(Error::DeserializeJson(_))));
    match check_answer("./s.json", schema, "nope") {
        Err(Error::Stdio(m)) => assert!(m.starts_with("Failed to read JSON: ")),
        other => panic!("unexpected {:?}", other),
    }
    match check_answer("./s.json", r#"{"type":12}"#, "{}") {
        Err(Error::Custom(m)) => assert!(m.starts_with("Error while compiling the schema[\"./s.json\"]: ")),
        other => panic!("unexpected {:?}", other),
    }
}

#[test]
fn schema_report_lines() {
    let lines = schema_report("p", SchemaCheck::Checked(vec!["x".to_string(), "y".to_string()])).unwrap();
    assert_eq!(lines, vec!["Validation failed.", "error: x", "error: y"]);
    assert_eq!(schema_report("p", SchemaCheck::Checked(vec![])).unwrap(), Vec::<String>::new());
    let path = schema_file(VIEW_RESULT_SCHEMA);
    assert_eq!(path, "./schemas/view_result.json");
    match schema_report(&path, SchemaCheck::NotCompiled("bad".to_string())) {
        Err(Error::Custom(m)) => {
            assert_eq!(m, "Error while compiling the schema[\"./schemas/view_result.json\"]: bad")
        }
        other => panic!("unexpected {:?}", other),
    }
    assert!(matches!(
        schema_report("p", SchemaCheck::SchemaNotJson("m".to_string())),
        Err(Error::DeserializeJson(m)) if m == "m"
    ));
    assert!(matches!(
        schema_report("p", SchemaCheck::AnswerNotJson("m".to_string())),
        Err(Error::Stdio(m)) if m == "Failed to read JSON: m"
    ));
}
