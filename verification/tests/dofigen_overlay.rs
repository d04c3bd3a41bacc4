use lenra_cli::config::{
    Application, DebugDofigen, Dev, Dofigen, DockerFiles, Generator, OF_WATCHDOG_VERSION,
};
use lenra_cli::dofigen::{Artifact, Builder, DofigenImage};
use lenra_cli::errors::Error;

fn config_of(image: &DofigenImage) -> Application {
    Application {
        components_api: "".to_string(),
        generator: Generator::Dofigen(Dofigen { dofigen: image.clone_image() }),
        ..Default::default()
    }
}

#[test]
fn simple_image() {
    let image = DofigenImage {
        image: "my-dockerimage".into(),
        cmd: Some(vec!["/app/my-app".into()]),
        ..Default::default()
    };
    let overlayed_image = DofigenImage {
        builders: Some(vec![Builder {
            name: Some("of-watchdog".into()),
            image: format!("ghcr.io/openfaas/of-watchdog:{}", OF_WATCHDOG_VERSION),
            ..Default::default()
        }]),
        image: String::from("my-dockerimage"),
        envs: Some(vec![("fprocess".to_string(), "/app/my-app".to_string())]),
        artifacts: Some(vec![Artifact {
            builder: "of-watchdog".into(),
            source: "/fwatchdog".into(),
            destination: "/fwatchdog".into(),
        }]),
        ports: Some(vec![8080]),
        cmd: Some(vec!["/fwatchdog".into()]),
        ..Default::default()
    };
    let config = config_of(&image);

    assert_eq!(config.dofigen_of_overlay(image).unwrap(), overlayed_image);
}

#[test]
#[should_panic]
fn no_cmd() {
    let image = DofigenImage {
        image: "my-dockerimage".into(),
        ..Default::default()
    };
    let config = config_of(&image);
    config.dofigen_of_overlay(image).unwrap();
}

#[test]
fn overlay_refusals() {
    let two_ports = DofigenImage {
        image: "img".into(),
        cmd: Some(vec!["run".into()]),
        ports: Some(vec![3000, 3001]),
        ..Default::default()
    };
    match config_of(&two_ports).dofigen_of_overlay(two_ports) {
        Err(Error::Custom(m)) => {
            assert_eq!(m, "More than one port has been defined in the Dofigen descriptor")
        }
        other => panic!("unexpected {:?}", other),
    }
    let entrypoint = DofigenImage {
        image: "img".into(),
        cmd: Some(vec!["run".into()]),
        entrypoint: Some(vec!["sh".into()]),
        ..Default::default()
    };
    match config_of(&entrypoint).dofigen_of_overlay(entrypoint) {
        Err(Error::Custom(m)) => assert_eq!(
            m,
            "The Dofigen descriptor can't have entrypoint defined. Use cmd instead"
        ),
        other => panic!("unexpected {:?}", other),
    }
    let no_cmd = DofigenImage { image: "img".into(), ..Default::default() };
    match config_of(&no_cmd).dofigen_of_overlay(no_cmd) {
        Err(Error::Custom(m)) => assert_eq!(m, "The Dofigen cmd property is not defined"),
        other => panic!("unexpected {:?}", other),
    }
}

#[test]
fn overlay_with_one_port_runs_in_http_mode() {
    let image = DofigenImage {
        image: "img".into(),
        cmd: Some(vec!["node".into(), "index.js".into()]),
        ports: Some(vec![3000]),
        envs: Some(vec![("read_timeout".to_string(), "10".to_string())]),
        ..Default::default()
    };
    let overlay = config_of(&image).dofigen_of_overlay(image).unwrap();
    let envs = overlay.envs.unwrap();
    let get = |name: &str| envs.iter().find(|(k, _)| k == name).map(|(_, v)| v.clone());
    assert_eq!(get("mode"), Some("http".to_string()));
    assert_eq!(get("upstream_url"), Some("http://127.0.0.1:3000".to_string()));
    assert_eq!(get("suppress_lock"), Some("true".to_string()));
    assert_eq!(get("exec_timeout"), Some("3600".to_string()));
    assert_eq!(get("read_timeout"), Some("10".to_string()));
    assert_eq!(get("write_timeout"), Some("3600".to_string()));
    assert_eq!(get("fprocess"), Some("node index.js".to_string()));
    assert_eq!(overlay.ports, Some(vec![8080]));
    let health = overlay.healthcheck.unwrap();
    assert_eq!(health.cmd, "curl --fail http://localhost:8080/_/health");
    assert_eq!(health.retries, Some(10));
}

#[test]
fn debug_overlay_adds_command_and_ports() {
    let image = DofigenImage {
        image: "img".into(),
        cmd: Some(vec!["run".into()]),
        ..Default::default()
    };
    let config = Application {
        generator: Generator::Dofigen(Dofigen { dofigen: image.clone_image() }),
        dev: Some(Dev {
            dofigen: Some(DebugDofigen {
                cmd: Some(vec!["run".into(), "--debug".into()]),
                ports: Some(vec![9229]),
            }),
            ..Default::default()
        }),
        ..Default::default()
    };
    let debug = config.build_dofigen(image.clone_image(), true).unwrap();
    assert_eq!(debug.ports, Some(vec![8080, 9229]));
    let envs = debug.envs.unwrap();
    assert!(envs.contains(&("fprocess".to_string(), "run --debug".to_string())));
    let release = config.build_dofigen(image, false).unwrap();
    assert_eq!(release.ports, Some(vec![8080]));
    assert!(config.can_write_docker_files(true));
    match config.generate_docker_files(true) {
        Ok(DockerFiles::Content { dockerfile, dockerignore }) => {
            assert!(dockerfile.contains("EXPOSE 8080\nEXPOSE 9229\n"), "{}", dockerfile);
            assert!(dockerfile.contains("FROM ghcr.io/openfaas/of-watchdog:"), "{}", dockerfile);
            assert!(dockerignore.unwrap().starts_with("# This file is generated by Dofigen v1.4.1\n"));
        }
        other => panic!("unexpected {:?}", other),
    }
}
