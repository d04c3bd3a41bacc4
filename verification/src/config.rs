//! The app's configuration file (`lenra.yml`) and what is generated from it.

use vstd::prelude::*;
use vstd::string::*;

use crate::dofigen::{
    env_contains, env_has, env_insert, env_set, env_view, distinct_names, Artifact, ArtifactView, Builder,
    BuilderView, DofigenImage, DofigenImageView, Healthcheck, HealthcheckView, dofigen_can_write,
    dofigen_dockerfile_is, dofigen_dockerignore, dofigen_json, dofigen_json_error,
};
use crate::json::json_text;
use crate::docker_compose::OF_WATCHDOG_PORT;
use crate::errors::Error;
use crate::matching::Value;
use crate::paths::{cache_file, cache_file_path, extension_of, path_extension};
use crate::text::{concat2, concat3, decimal, join, join_strings, owned, str_eq, to_decimal};

verus! {

/// The configuration file read when none is given.
pub const DEFAULT_CONFIG_FILE: &'static str = "lenra.yml";

/// The directory where the generated files are kept.
pub const LENRA_CACHE_DIRECTORY: &'static str = ".lenra";

/// The name of the generated Dockerfile, in the cache directory.
pub const DOCKERFILE_NAME: &'static str = "Dockerfile";

/// The name of the generated Docker ignore file, in the cache directory.
pub const DOCKERIGNORE_NAME: &'static str = "Dockerfile.dockerignore";

/// The name of the generated Docker Compose file, in the cache directory.
pub const DOCKERCOMPOSE_NAME: &'static str = "docker-compose.yml";

/// The name of the builder that provides the OpenFaaS watchdog.
pub const OF_WATCHDOG_BUILDER: &'static str = "of-watchdog";

/// The image of the OpenFaaS watchdog.
pub const OF_WATCHDOG_IMAGE: &'static str = "ghcr.io/openfaas/of-watchdog";

/// The version of the OpenFaaS watchdog.
pub const OF_WATCHDOG_VERSION: &'static str = "0.9.10";

/// The views of a list of strings.
pub open spec fn strings_view(v: Seq<String>) -> Seq<Seq<char>> {
    v.map_values(|s: String| s@)
}

/// The view of an optional string.
pub open spec fn opt_string_view(o: Option<String>) -> Option<Seq<char>> {
    match o {
        Some(s) => Some(s@),
        None => None,
    }
}

/// A copy of a list of strings.
pub fn clone_strings(v: &Vec<String>) -> (r: Vec<String>)
    ensures
        strings_view(r@) == strings_view(v@),
{
    let mut r: Vec<String> = Vec::new();
    let mut i: usize = 0;
    while i < v.len()
        invariant
            0 <= i <= v.len(),
            strings_view(r@) == strings_view(v@).take(i as int),
        decreases v.len() - i,
    {
        let ghost before = r@;
        r.push(v[i].clone());
        proof {
            assert(strings_view(r@) =~= strings_view(before).push(v@[i as int]@));
            assert(strings_view(v@).take(i + 1) =~= strings_view(v@).take(i as int).push(
                v@[i as int]@,
            ));
        }
        i += 1;
    }
    proof {
        assert(strings_view(v@).take(i as int) =~= strings_view(v@));
    }
    r
}

/// A copy of an optional string.
pub fn clone_opt_string(o: &Option<String>) -> (r: Option<String>)
    ensures
        opt_string_view(r) == opt_string_view(*o),
{
    match o {
        Some(s) => Some(s.clone()),
        None => None,
    }
}

/// A Docker image.
#[derive(Debug, Default)]
pub struct Image {
    pub image: Option<String>,
    pub tag: Option<String>,
}

/// The text of a Docker image reference: its name and its tag, each taken from
/// the defaults where it is not set.
pub open spec fn image_reference(
    image: Option<Seq<char>>,
    tag: Option<Seq<char>>,
    default_image: Seq<char>,
    default_tag: Seq<char>,
) -> Seq<char> {
    image.unwrap_or(default_image) + ":"@ + tag.unwrap_or(default_tag)
}

impl Image {
    /// The image reference (`name:tag`), with the given defaults where the name
    /// or the tag is not set.
    pub fn to_image(&self, default_image: &str, default_tag: &str) -> (r: String)
        ensures
            r@ == image_reference(
                opt_string_view(self.image),
                opt_string_view(self.tag),
                default_image@,
                default_tag@,
            ),
    {
        let image = match &self.image {
            Some(i) => i.as_str(),
            None => default_image,
        };
        let tag = match &self.tag {
            Some(t) => t.as_str(),
            None => default_tag,
        };
        concat3(image, ":", tag)
    }

    /// A copy of the image.
    pub fn clone_image(&self) -> (r: Image)
        ensures
            opt_string_view(r.image) == opt_string_view(self.image),
            opt_string_view(r.tag) == opt_string_view(self.tag),
    {
        Image { image: clone_opt_string(&self.image), tag: clone_opt_string(&self.tag) }
    }
}

/// The debug additions to a Dofigen descriptor.
#[derive(Debug, Default)]
pub struct DebugDofigen {
    pub cmd: Option<Vec<String>>,
    pub ports: Option<Vec<u16>>,
}

/// The dev specific configuration.
#[derive(Debug, Default)]
pub struct Dev {
    pub app: Option<Image>,
    pub devtool: Option<Image>,
    pub postgres: Option<Image>,
    pub mongo: Option<Image>,
    pub dofigen: Option<DebugDofigen>,
}

} // verus!

verus! {

/// The Dofigen configuration, given in the configuration file.
#[derive(Debug)]
pub struct Dofigen {
    pub dofigen: DofigenImage,
}

/// The Dofigen configuration, given as the path of a Dofigen file.
#[derive(Debug)]
pub struct DofigenFile {
    pub dofigen: String,
}

/// The Docker configuration: the content of the Dockerfile, and of the Docker
/// ignore file where there is one.
#[derive(Debug)]
pub struct Docker {
    pub docker: String,
    pub ignore: Option<String>,
}

/// The Docker configuration, given as the path of a Dockerfile.
#[derive(Debug)]
pub struct Dockerfile {
    pub docker: String,
}

/// How the app's image is generated.
#[derive(Debug)]
pub enum Generator {
    Dofigen(Dofigen),
    DofigenFile(DofigenFile),
    /// A `dofigen` entry that is no Dofigen descriptor.
    DofigenError { dofigen: Value },
    Dockerfile(Dockerfile),
    Docker(Docker),
    Unknow,
}

impl Default for Generator {
    fn default() -> (r: Self)
        ensures
            r is Unknow,
    {
        Generator::Unknow
    }
}

/// The main component of the configuration file.
#[derive(Debug, Default)]
pub struct Application {
    pub components_api: String,
    pub generator: Generator,
    pub dev: Option<Dev>,
    /// The app's directory, relative to the configuration file's.
    pub path: Option<String>,
}

/// The builder that provides the OpenFaaS watchdog.
pub open spec fn watchdog_builder() -> BuilderView {
    BuilderView {
        image: OF_WATCHDOG_IMAGE@ + ":"@ + OF_WATCHDOG_VERSION@,
        user: None,
        workdir: None,
        envs: None,
        artifacts: None,
        adds: None,
        root: None,
        script: None,
        caches: None,
        name: Some(OF_WATCHDOG_BUILDER@),
    }
}

/// The watchdog binary, copied from its builder.
pub open spec fn watchdog_artifact() -> ArtifactView {
    ArtifactView {
        builder: OF_WATCHDOG_BUILDER@,
        source: "/fwatchdog"@,
        destination: "/fwatchdog"@,
    }
}

/// The health check of an app that serves HTTP behind the watchdog.
pub open spec fn watchdog_healthcheck() -> HealthcheckView {
    HealthcheckView {
        cmd: "curl --fail http://localhost:8080/_/health"@,
        interval: Some("3s"@),
        timeout: Some("1s"@),
        start: Some("3s"@),
        retries: Some(10),
    }
}

/// The variable set to the default when it is not set.
pub open spec fn env_default(envs: Seq<(Seq<char>, Seq<char>)>, name: Seq<char>, value: Seq<char>) -> Seq<
    (Seq<char>, Seq<char>),
> {
    if env_has(envs, name) {
        envs
    } else {
        env_insert(envs, name, value)
    }
}

/// The variables of the watchdog's HTTP mode, forwarding to the app's port,
/// with long time limits unless they are set.
pub open spec fn http_mode_envs(envs: Seq<(Seq<char>, Seq<char>)>, port: u16) -> Seq<
    (Seq<char>, Seq<char>),
> {
    let e = env_insert(envs, "mode"@, "http"@);
    let e = env_insert(e, "upstream_url"@, "http://127.0.0.1:"@ + decimal(port as nat));
    let e = env_insert(e, "suppress_lock"@, "true"@);
    let e = env_default(e, "exec_timeout"@, "3600"@);
    let e = env_default(e, "read_timeout"@, "3600"@);
    env_default(e, "write_timeout"@, "3600"@)
}

/// The Dofigen descriptor run behind the OpenFaaS watchdog: the watchdog's
/// builder and artifact added, the watchdog run in place of the app's command
/// (which it runs as `fprocess`), in HTTP mode with a health check where the
/// app has a port, and only the watchdog's port published. Refused where the
/// descriptor has more than one port, an entrypoint, or no command.
pub open spec fn of_overlay(image: DofigenImageView) -> Result<DofigenImageView, Seq<char>> {
    if image.ports is Some && image.ports->0.len() > 1 {
        Err("More than one port has been defined in the Dofigen descriptor"@)
    } else if image.entrypoint is Some {
        Err("The Dofigen descriptor can't have entrypoint defined. Use cmd instead"@)
    } else if image.cmd is None {
        Err("The Dofigen cmd property is not defined"@)
    } else {
        let envs = image.envs.unwrap_or(Seq::empty());
        let http = image.ports is Some && image.ports->0.len() == 1;
        let envs = if http {
            http_mode_envs(envs, image.ports->0[0])
        } else {
            envs
        };
        Ok(
            DofigenImageView {
                builders: Some(image.builders.unwrap_or(Seq::empty()).push(watchdog_builder())),
                artifacts: Some(image.artifacts.unwrap_or(Seq::empty()).push(watchdog_artifact())),
                ports: Some(seq![OF_WATCHDOG_PORT]),
                envs: Some(env_insert(envs, "fprocess"@, join(image.cmd->0, " "@))),
                entrypoint: None,
                cmd: Some(seq!["/fwatchdog"@]),
                healthcheck: if http {
                    Some(watchdog_healthcheck())
                } else {
                    None
                },
                ..image
            },
        )
    }
}

/// The Dofigen descriptor with the dev configuration's debug additions: its
/// command run by the watchdog, and its ports published too.
pub open spec fn debug_overlay(dev: Option<Dev>, image: DofigenImageView) -> DofigenImageView {
    match dev {
        Some(d) => match d.dofigen {
            Some(dofigen) => {
                let with_cmd = match dofigen.cmd {
                    Some(cmd) => DofigenImageView {
                        envs: Some(
                            env_insert(image.envs->0, "fprocess"@, join(strings_view(cmd@), " "@)),
                        ),
                        ..image
                    },
                    None => image,
                };
                match dofigen.ports {
                    Some(p) => DofigenImageView {
                        ports: Some(with_cmd.ports->0 + p@),
                        ..with_cmd
                    },
                    None => with_cmd,
                }
            },
            None => image,
        },
        None => image,
    }
}

/// The debug additions can be made to the descriptor: it has variables where a
/// command is added, and ports where ports are added.
pub open spec fn debug_overlay_applies(dev: Option<Dev>, image: DofigenImageView) -> bool {
    match dev {
        Some(d) => match d.dofigen {
            Some(dofigen) => (dofigen.cmd is Some ==> image.envs is Some) && (dofigen.ports is Some
                ==> image.ports is Some),
            None => true,
        },
        None => true,
    }
}

/// The Dofigen descriptor from which the app's Dockerfile is written: behind the
/// watchdog, with the debug additions when the app is built for debugging.
pub open spec fn dofigen_descriptor(dev: Option<Dev>, image: DofigenImageView, debug: bool) -> Result<
    DofigenImageView,
    Seq<char>,
> {
    match of_overlay(image) {
        Ok(overlay) => Ok(
            if debug {
                debug_overlay(dev, overlay)
            } else {
                overlay
            },
        ),
        Err(e) => Err(e),
    }
}

/// A refusal with a message, as a custom error.
pub open spec fn custom_error_is(e: Error, msg: Seq<char>) -> bool {
    e is Custom && e->Custom_0@ == msg
}

fn copy_port(p: &u16) -> (r: u16)
    ensures
        r == *p,
{
    *p
}

impl Application {
    /// Puts the Dofigen descriptor behind the OpenFaaS watchdog.
    pub fn dofigen_of_overlay(&self, image: DofigenImage) -> (r: Result<DofigenImage, Error>)
        ensures
            match r {
                Ok(img) => of_overlay(image@) == Ok::<DofigenImageView, Seq<char>>(img@),
                Err(e) => of_overlay(image@) is Err && custom_error_is(e, of_overlay(image@)->Err_0),
            },
            distinct_names(image@.envs.unwrap_or(Seq::empty())) ==> (r matches Ok(img)
                ==> distinct_names(img@.envs->0)),
    {
        let ghost input = image@;
        let DofigenImage {
            image: name,
            user,
            workdir,
            envs,
            artifacts,
            adds,
            root,
            script,
            caches,
            builders,
            context,
            ignores,
            entrypoint,
            cmd,
            ports,
            healthcheck: _,
        } = image;
        let mut builders = match builders {
            Some(v) => v,
            None => Vec::new(),
        };
        builders.push(
            Builder {
                image: concat3(OF_WATCHDOG_IMAGE, ":", OF_WATCHDOG_VERSION),
                user: None,
                workdir: None,
                envs: None,
                artifacts: None,
                adds: None,
                root: None,
                script: None,
                caches: None,
                name: Some(owned(OF_WATCHDOG_BUILDER)),
            },
        );
        let mut artifacts = match artifacts {
            Some(v) => v,
            None => Vec::new(),
        };
        artifacts.push(
            Artifact {
                builder: owned(OF_WATCHDOG_BUILDER),
                source: owned("/fwatchdog"),
                destination: owned("/fwatchdog"),
            },
        );
        let mut envs = match envs {
            Some(v) => v,
            None => Vec::new(),
        };
        let ghost envs0 = env_view(envs@);
        proof {
            assert(envs0 == input.envs.unwrap_or(Seq::empty()));
        }
        let mut healthcheck = None;
        let mut http = false;
        if let Some(ports) = &ports {
            if ports.len() > 1 {
                return Err(
                    Error::Custom(
                        owned("More than one port has been defined in the Dofigen descriptor"),
                    ),
                );
            }
            if ports.len() == 1 {
                http = true;
                let port = to_decimal(copy_port(&ports[0]) as usize);
                env_set(&mut envs, owned("mode"), owned("http"));
                env_set(&mut envs, owned("upstream_url"), concat2("http://127.0.0.1:", port.as_str()));
                env_set(&mut envs, owned("suppress_lock"), owned("true"));
                if !env_contains(&envs, "exec_timeout") {
                    env_set(&mut envs, owned("exec_timeout"), owned("3600"));
                }
                if !env_contains(&envs, "read_timeout") {
                    env_set(&mut envs, owned("read_timeout"), owned("3600"));
                }
                if !env_contains(&envs, "write_timeout") {
                    env_set(&mut envs, owned("write_timeout"), owned("3600"));
                }
                healthcheck = Some(
                    Healthcheck {
                        cmd: owned("curl --fail http://localhost:8080/_/health"),
                        start: Some(owned("3s")),
                        interval: Some(owned("3s")),
                        timeout: Some(owned("1s")),
                        retries: Some(10),
                    },
                );
            }
        }
        proof {
            if http {
                assert(env_view(envs@) == crate::config::http_mode_envs(envs0, input.ports->0[0]));
            } else {
                assert(env_view(envs@) == envs0);
            }
        }
        if entrypoint.is_some() {
            return Err(
                Error::Custom(
                    owned("The Dofigen descriptor can't have entrypoint defined. Use cmd instead"),
                ),
            );
        }
        match cmd {
            Some(cmd) => {
                let joined = join_strings(&cmd, " ");
                proof {
                    assert(cmd@.map_values(|s: String| s@) =~= strings_view(cmd@));
                }
                env_set(&mut envs, owned("fprocess"), joined);
            },
            None => {
                return Err(Error::Custom(owned("The Dofigen cmd property is not defined")));
            },
        }
        let r = DofigenImage {
            image: name,
            builders: Some(builders),
            artifacts: Some(artifacts),
            ports: Some(vec![OF_WATCHDOG_PORT]),
            envs: Some(envs),
            entrypoint: None,
            cmd: Some(vec![owned("/fwatchdog")]),
            user,
            workdir,
            adds,
            root,
            script,
            caches,
            healthcheck,
            ignores,
            context,
        };
        proof {
            assert(of_overlay(input) is Ok);
            let spec = of_overlay(input)->Ok_0;
            assert(r@.builders->0 =~= spec.builders->0);
            assert(r@.artifacts->0 =~= spec.artifacts->0);
            assert(r@.ports->0 =~= spec.ports->0);
            assert(r@.cmd->0 =~= spec.cmd->0);
            assert(r@.envs == spec.envs);
            assert(r@.healthcheck == spec.healthcheck);
            assert(r@ == spec);
        }
        Ok(r)
    }
}

} // verus!

verus! {

impl Application {
    /// Adds the dev configuration's debug additions to the Dofigen descriptor.
    pub fn dofigen_debug_overlay(&self, image: DofigenImage) -> (r: Result<DofigenImage, Error>)
        requires
            debug_overlay_applies(self.dev, image@),
        ensures
            r matches Ok(img) && img@ == debug_overlay(self.dev, image@),
    {
        let ghost input = image@;
        let mut debug_overlay = image;
        if let Some(dev) = &self.dev {
            if let Some(dofigen) = &dev.dofigen {
                if let Some(cmd) = &dofigen.cmd {
                    let mut envs = match debug_overlay.envs {
                        Some(envs) => envs,
                        None => {
                            proof {
                                assert(false);
                            }
                            Vec::new()
                        },
                    };
                    let joined = join_strings(cmd, " ");
                    proof {
                        assert(cmd@.map_values(|s: String| s@) =~= strings_view(cmd@));
                    }
                    env_set(&mut envs, owned("fprocess"), joined);
                    debug_overlay.envs = Some(envs);
                }
                let ghost with_cmd = debug_overlay@;
                if let Some(ports) = &dofigen.ports {
                    let mut all_ports = match debug_overlay.ports {
                        Some(p) => p,
                        None => {
                            proof {
                                assert(false);
                            }
                            Vec::new()
                        },
                    };
                    let ghost first = all_ports@;
                    let mut i: usize = 0;
                    while i < ports.len()
                        invariant
                            0 <= i <= ports.len(),
                            all_ports@ == first + ports@.take(i as int),
                        decreases ports.len() - i,
                    {
                        all_ports.push(copy_port(&ports[i]));
                        proof {
                            assert(ports@.take(i + 1) =~= ports@.take(i as int).push(ports@[i as int]));
                        }
                        i += 1;
                    }
                    proof {
                        assert(ports@.take(i as int) =~= ports@);
                    }
                    debug_overlay.ports = Some(all_ports);
                    proof {
                        assert(debug_overlay@.ports->0 =~= with_cmd.ports->0 + ports@);
                    }
                }
            }
        }
        Ok(debug_overlay)
    }

    /// The Dofigen descriptor from which the app's Dockerfile is written: behind
    /// the watchdog, with the debug additions when the app is built for
    /// debugging.
    pub fn build_dofigen(&self, image: DofigenImage, debug: bool) -> (r: Result<DofigenImage, Error>)
        ensures
            match r {
                Ok(img) => dofigen_descriptor(self.dev, image@, debug) == Ok::<
                    DofigenImageView,
                    Seq<char>,
                >(img@),
                Err(e) => dofigen_descriptor(self.dev, image@, debug) is Err && custom_error_is(
                    e,
                    dofigen_descriptor(self.dev, image@, debug)->Err_0,
                ),
            },
    {
        let overlay = self.dofigen_of_overlay(image)?;
        if debug {
            self.dofigen_debug_overlay(overlay)
        } else {
            Ok(overlay)
        }
    }
}

} // verus!

verus! {

/// The outcome of the check of a configuration file's extension: accepted for
/// YAML and JSON files, refused with a message otherwise.
pub open spec fn config_extension_check(extension: Option<Seq<char>>) -> Result<(), Seq<char>> {
    match extension {
        Some(ext) => if ext == "yml"@ || ext == "yaml"@ || ext == "json"@ {
            Ok(())
        } else {
            Err("Not managed config file extension "@ + ext)
        },
        None => Err("The config file has no extension"@),
    }
}

/// Checks that a configuration file is one that can be read: a YAML or JSON
/// file, by its extension.
pub fn check_config_file_extension(path: &str) -> (r: Result<(), Error>)
    ensures
        match r {
            Ok(()) => config_extension_check(path_extension(path@)) is Ok,
            Err(e) => config_extension_check(path_extension(path@)) is Err && custom_error_is(
                e,
                config_extension_check(path_extension(path@))->Err_0,
            ),
        },
{
    match extension_of(path) {
        Some(ext) => {
            if str_eq(ext.as_str(), "yml") || str_eq(ext.as_str(), "yaml") || str_eq(
                ext.as_str(),
                "json",
            ) {
                Ok(())
            } else {
                Err(Error::Custom(concat2("Not managed config file extension ", ext.as_str())))
            }
        },
        None => Err(Error::Custom(owned("The config file has no extension"))),
    }
}

/// What is written to build the app's image.
#[derive(Debug)]
pub enum DockerFiles {
    /// The files that Dofigen writes from the descriptor of this file, once it
    /// has been put behind the watchdog (see [`Application::build_dofigen`]).
    DescriptorFile(String),
    /// This Dockerfile, and this Docker ignore file where there is one.
    Content { dockerfile: String, dockerignore: Option<String> },
    /// Nothing: the configuration names its own Dockerfile.
    Given,
}

/// Dofigen writes the app's descriptor, where the configuration has one.
pub open spec fn docker_files_writable(app: Application, debug: bool) -> bool {
    match app.generator {
        Generator::Dofigen(d) => match dofigen_descriptor(app.dev, d.dofigen@, debug) {
            Ok(img) => dofigen_can_write(img),
            Err(_) => true,
        },
        _ => true,
    }
}

impl Application {
    /// Whether Dofigen writes the app's descriptor, where the configuration has
    /// one.
    pub fn can_write_docker_files(&self, debug: bool) -> (r: bool)
        ensures
            r == docker_files_writable(*self, debug),
    {
        match &self.generator {
            Generator::Dofigen(dofigen) => match self.build_dofigen(dofigen.dofigen.clone_image(), debug) {
                Ok(descriptor) => descriptor.can_write(),
                Err(_) => true,
            },
            _ => true,
        }
    }

    /// What to write to build the app's image, by the configured generator:
    /// the files that Dofigen writes from the descriptor put behind the
    /// watchdog; refused where the Dofigen entry is no descriptor, or where
    /// there is no generator that the command line manages.
    pub fn generate_docker_files(&self, debug: bool) -> (r: Result<DockerFiles, Error>)
        requires
            docker_files_writable(*self, debug),
        ensures
            match self.generator {
                Generator::Dofigen(d) => match dofigen_descriptor(self.dev, d.dofigen@, debug) {
                    Ok(img) => match r {
                        Ok(files) => {
                            &&& files matches DockerFiles::Content { dockerfile, dockerignore }
                            &&& dofigen_dockerfile_is(files->dockerfile@, img)
                            &&& files->dockerignore matches Some(i) && i@ == dofigen_dockerignore(
                                json_text(dofigen_json(img)),
                            )
                        },
                        Err(e) => e matches Error::Dofigen(m) && m@ == dofigen_json_error(
                            json_text(dofigen_json(img)),
                        ),
                    },
                    Err(msg) => r matches Err(e) && custom_error_is(e, msg),
                },
                Generator::DofigenFile(f) => r matches Ok(DockerFiles::DescriptorFile(p))
                    && p@ == f.dofigen@,
                Generator::DofigenError { .. } => r matches Err(e) && custom_error_is(
                    e,
                    "Your Dofigen configuration is not correct"@,
                ),
                Generator::Dockerfile(_) => r matches Ok(DockerFiles::Given),
                Generator::Docker(d) => r matches Ok(
                    DockerFiles::Content { dockerfile, dockerignore },
                ) && dockerfile@ == d.docker@ && opt_string_view(dockerignore) == opt_string_view(
                    d.ignore,
                ),
                Generator::Unknow => r matches Err(e) && custom_error_is(
                    e,
                    "Not managed generator"@,
                ),
            },
    {
        match &self.generator {
            Generator::Dofigen(dofigen) => {
                let descriptor = self.build_dofigen(dofigen.dofigen.clone_image(), debug)?;
                let (dockerfile, dockerignore) = descriptor.docker_files()?;
                Ok(DockerFiles::Content { dockerfile, dockerignore: Some(dockerignore) })
            },
            Generator::DofigenFile(dofigen_file) => Ok(
                DockerFiles::DescriptorFile(dofigen_file.dofigen.clone()),
            ),
            Generator::DofigenError { .. } => Err(
                Error::Custom(owned("Your Dofigen configuration is not correct")),
            ),
            Generator::Dockerfile(_) => Ok(DockerFiles::Given),
            Generator::Docker(docker) => Ok(
                DockerFiles::Content {
                    dockerfile: docker.docker.clone(),
                    dockerignore: clone_opt_string(&docker.ignore),
                },
            ),
            Generator::Unknow => Err(Error::Custom(owned("Not managed generator"))),
        }
    }

    /// The Dockerfile that the Docker Compose file builds the app from: the
    /// configured one, or the generated one in the cache directory.
    pub fn compose_dockerfile(&self) -> (r: String)
        ensures
            r@ == match self.generator {
                Generator::Dockerfile(d) => d.docker@,
                _ => cache_file_path(LENRA_CACHE_DIRECTORY@, DOCKERFILE_NAME@),
            },
    {
        match &self.generator {
            Generator::Dockerfile(file_conf) => file_conf.docker.clone(),
            _ => cache_file(LENRA_CACHE_DIRECTORY, DOCKERFILE_NAME),
        }
    }
}

} // verus!
