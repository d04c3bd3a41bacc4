//! The Docker Compose file that runs the app and its local Lenra environment.

use vstd::prelude::*;
use vstd::string::*;

use crate::config::{image_reference, opt_string_view, strings_view, Dev, Image};
use crate::docker::{normalize_tag, normalized_tag};
use crate::errors::Error;
use crate::json::{
    entries_view, json_text, object, opt_entry, opt_text_json, opt_texts_json, push_entry,
    push_opt_text, push_opt_texts, text_pairs, text_pairs_json, texts, texts_json, Json, JsonView,
};
use crate::text::{concat2, concat3, decimal, owned, to_decimal};

verus! {

pub const APP_SERVICE_NAME: &'static str = "app";
pub const DEVTOOL_SERVICE_NAME: &'static str = "devtool";
pub const POSTGRES_SERVICE_NAME: &'static str = "postgres";
pub const MONGO_SERVICE_NAME: &'static str = "mongodb";
pub const APP_BASE_IMAGE: &'static str = "lenra/app/";
pub const APP_DEFAULT_IMAGE: &'static str = "my";
pub const APP_DEFAULT_IMAGE_TAG: &'static str = "latest";
pub const DEVTOOL_IMAGE: &'static str = "lenra/devtools";
pub const DEVTOOL_DEFAULT_TAG: &'static str = "beta";
pub const POSTGRES_IMAGE: &'static str = "postgres";
pub const POSTGRES_IMAGE_TAG: &'static str = "13";
pub const MONGO_IMAGE: &'static str = "mongo";
pub const MONGO_IMAGE_TAG: &'static str = "5.0.11-focal";
pub const OF_WATCHDOG_PORT: u16 = 8080;
pub const DEVTOOL_PORT: u16 = 4000;
pub const MONGO_PORT: u16 = 27017;
pub const POSTGRES_PORT: u16 = 5432;
pub const NON_ROOT_USER: &'static str = "12000";
pub const MEMORY_RESERVATION: &'static str = "128M";
pub const MEMORY_LIMIT: &'static str = "256M";

/// A service of the local Lenra environment.
#[derive(Clone, Copy, Debug, PartialEq, Eq, Structural)]
pub enum Service {
    App,
    Devtool,
    Postgres,
    Mongo,
}

/// The name of a service in the Docker Compose file.
pub open spec fn service_name(s: Service) -> Seq<char> {
    match s {
        Service::App => APP_SERVICE_NAME@,
        Service::Devtool => DEVTOOL_SERVICE_NAME@,
        Service::Postgres => POSTGRES_SERVICE_NAME@,
        Service::Mongo => MONGO_SERVICE_NAME@,
    }
}

impl Service {
    /// The name of the service in the Docker Compose file.
    pub fn to_str(&self) -> (r: &'static str)
        ensures
            r@ == service_name(*self),
    {
        match self {
            Service::App => APP_SERVICE_NAME,
            Service::Devtool => DEVTOOL_SERVICE_NAME,
            Service::Postgres => POSTGRES_SERVICE_NAME,
            Service::Mongo => MONGO_SERVICE_NAME,
        }
    }
}

/// The image reference of each service.
#[derive(Debug)]
pub struct ServiceImages {
    pub app: String,
    pub devtool: String,
    pub postgres: String,
    pub mongo: String,
}

/// The image reference that a service gets in the images.
pub open spec fn service_image(images: ServiceImages, service: Service) -> Seq<char> {
    match service {
        Service::App => images.app@,
        Service::Devtool => images.devtool@,
        Service::Postgres => images.postgres@,
        Service::Mongo => images.mongo@,
    }
}

impl ServiceImages {
    /// The image reference of a service.
    pub fn get(&self, service: &Service) -> (r: String)
        ensures
            r@ == service_image(*self, *service),
    {
        match service {
            Service::App => self.app.clone(),
            Service::Devtool => self.devtool.clone(),
            Service::Postgres => self.postgres.clone(),
            Service::Mongo => self.mongo.clone(),
        }
    }
}

/// The app image name used when the configuration sets none: the app base
/// followed by the name of the current directory, or a default name.
pub open spec fn default_app_image(current_dir_name: Option<Seq<char>>) -> Seq<char> {
    APP_BASE_IMAGE@ + current_dir_name.unwrap_or(APP_DEFAULT_IMAGE@)
}

/// The app image tag used when the configuration sets none: the current git
/// branch as a tag, or a default tag.
pub open spec fn default_app_tag(current_branch: Option<Seq<char>>) -> Seq<char> {
    match current_branch {
        Some(b) => normalized_tag(b),
        None => APP_DEFAULT_IMAGE_TAG@,
    }
}

/// The reference of an image that the dev configuration may set.
pub open spec fn configured_image(img: Option<Image>, default_image: Seq<char>, default_tag: Seq<char>) -> Seq<char> {
    match img {
        Some(i) => image_reference(
            opt_string_view(i.image),
            opt_string_view(i.tag),
            default_image,
            default_tag,
        ),
        None => image_reference(None, None, default_image, default_tag),
    }
}

/// The dev configuration's image for a service, if any.
pub open spec fn dev_image(dev_conf: Option<Dev>, service: Service) -> Option<Image> {
    match dev_conf {
        Some(d) => match service {
            Service::App => d.app,
            Service::Devtool => d.devtool,
            Service::Postgres => d.postgres,
            Service::Mongo => d.mongo,
        },
        None => None,
    }
}

fn image_or_default(img: &Option<Image>, default_image: &str, default_tag: &str) -> (r: String)
    ensures
        r@ == configured_image(*img, default_image@, default_tag@),
{
    match img {
        Some(i) => i.to_image(default_image, default_tag),
        None => (Image { image: None, tag: None }).to_image(default_image, default_tag),
    }
}

/// The images of the services: those that the dev configuration sets, the
/// defaults elsewhere. The app's default image and tag come from the name of
/// the current directory and from the current git branch, where they are known.
pub fn get_services_images(
    dev_conf: &Option<Dev>,
    current_dir_name: Option<String>,
    current_branch: Option<String>,
) -> (r: ServiceImages)
    ensures
        r.app@ == configured_image(
            dev_image(*dev_conf, Service::App),
            default_app_image(opt_string_view(current_dir_name)),
            default_app_tag(opt_string_view(current_branch)),
        ),
        r.devtool@ == configured_image(
            dev_image(*dev_conf, Service::Devtool),
            DEVTOOL_IMAGE@,
            DEVTOOL_DEFAULT_TAG@,
        ),
        r.postgres@ == configured_image(
            dev_image(*dev_conf, Service::Postgres),
            POSTGRES_IMAGE@,
            POSTGRES_IMAGE_TAG@,
        ),
        r.mongo@ == configured_image(
            dev_image(*dev_conf, Service::Mongo),
            MONGO_IMAGE@,
            MONGO_IMAGE_TAG@,
        ),
{
    let default_app_image = match &current_dir_name {
        Some(name) => concat2(APP_BASE_IMAGE, name.as_str()),
        None => concat2(APP_BASE_IMAGE, APP_DEFAULT_IMAGE),
    };
    let default_app_tag = match current_branch {
        Some(branch) => normalize_tag(branch),
        None => owned(APP_DEFAULT_IMAGE_TAG),
    };
    let none: Option<Image> = None;
    let (app, devtool, postgres, mongo) = match dev_conf {
        Some(dev) => (&dev.app, &dev.devtool, &dev.postgres, &dev.mongo),
        None => (&none, &none, &none, &none),
    };
    ServiceImages {
        app: image_or_default(app, default_app_image.as_str(), default_app_tag.as_str()),
        devtool: image_or_default(devtool, DEVTOOL_IMAGE, DEVTOOL_DEFAULT_TAG),
        postgres: image_or_default(postgres, POSTGRES_IMAGE, POSTGRES_IMAGE_TAG),
        mongo: image_or_default(mongo, MONGO_IMAGE, MONGO_IMAGE_TAG),
    }
}

} // verus!

verus! {

/// The test that a health check runs.
pub enum ComposeHealthcheckTest {
    Single(String),
    Multiple(Vec<String>),
}

/// The model of a [`ComposeHealthcheckTest`].
pub enum ComposeHealthcheckTestView {
    Single(Seq<char>),
    Multiple(Seq<Seq<char>>),
}

/// A service's health check.
pub struct ComposeHealthcheck {
    pub test: ComposeHealthcheckTest,
    pub start_period: Option<String>,
    pub interval: Option<String>,
    pub timeout: Option<String>,
    pub retries: u64,
    pub disable: bool,
}

/// The model of a [`ComposeHealthcheck`].
pub struct ComposeHealthcheckView {
    pub test: ComposeHealthcheckTestView,
    pub start_period: Option<Seq<char>>,
    pub interval: Option<Seq<char>>,
    pub timeout: Option<Seq<char>>,
    pub retries: u64,
    pub disable: bool,
}

/// How a service's image is built.
pub struct ComposeBuild {
    pub context: String,
    pub dockerfile: String,
}

/// A service's memory limit and reservation.
pub struct ComposeMemory {
    pub limit: String,
    pub reservation: String,
}

/// A service of the Docker Compose file.
pub struct ComposeService {
    pub image: String,
    pub ports: Option<Vec<String>>,
    pub build: Option<ComposeBuild>,
    pub user: Option<String>,
    pub memory: Option<ComposeMemory>,
    pub environment: Option<Vec<(String, String)>>,
    pub healthcheck: Option<ComposeHealthcheck>,
    pub depends_on: Option<Vec<(String, String)>>,
    pub command: Option<String>,
}

/// The model of a [`ComposeService`]; the build is its context and Dockerfile,
/// the memory its limit and reservation, the dependencies are pairs of a
/// service and the condition it must meet.
pub struct ComposeServiceView {
    pub image: Seq<char>,
    pub ports: Option<Seq<Seq<char>>>,
    pub build: Option<(Seq<char>, Seq<char>)>,
    pub user: Option<Seq<char>>,
    pub memory: Option<(Seq<char>, Seq<char>)>,
    pub environment: Option<Seq<(Seq<char>, Seq<char>)>>,
    pub healthcheck: Option<ComposeHealthcheckView>,
    pub depends_on: Option<Seq<(Seq<char>, Seq<char>)>>,
    pub command: Option<Seq<char>>,
}

/// A Docker Compose file: its services, in order, under their names.
pub struct Compose {
    pub services: Vec<(String, ComposeService)>,
}

/// The views of a list of pairs of strings.
pub open spec fn pairs_view(v: Seq<(String, String)>) -> Seq<(Seq<char>, Seq<char>)> {
    v.map_values(|p: (String, String)| (p.0@, p.1@))
}

impl View for ComposeHealthcheck {
    type V = ComposeHealthcheckView;

    open spec fn view(&self) -> ComposeHealthcheckView {
        ComposeHealthcheckView {
            test: match self.test {
                ComposeHealthcheckTest::Single(s) => ComposeHealthcheckTestView::Single(s@),
                ComposeHealthcheckTest::Multiple(v) => ComposeHealthcheckTestView::Multiple(
                    strings_view(v@),
                ),
            },
            start_period: opt_string_view(self.start_period),
            interval: opt_string_view(self.interval),
            timeout: opt_string_view(self.timeout),
            retries: self.retries,
            disable: self.disable,
        }
    }
}

impl View for ComposeService {
    type V = ComposeServiceView;

    open spec fn view(&self) -> ComposeServiceView {
        ComposeServiceView {
            image: self.image@,
            ports: match self.ports {
                Some(p) => Some(strings_view(p@)),
                None => None,
            },
            build: match self.build {
                Some(b) => Some((b.context@, b.dockerfile@)),
                None => None,
            },
            user: opt_string_view(self.user),
            memory: match self.memory {
                Some(m) => Some((m.limit@, m.reservation@)),
                None => None,
            },
            environment: match self.environment {
                Some(e) => Some(pairs_view(e@)),
                None => None,
            },
            healthcheck: match self.healthcheck {
                Some(h) => Some(h@),
                None => None,
            },
            depends_on: match self.depends_on {
                Some(d) => Some(pairs_view(d@)),
                None => None,
            },
            command: opt_string_view(self.command),
        }
    }
}

impl View for Compose {
    type V = Seq<(Seq<char>, ComposeServiceView)>;

    open spec fn view(&self) -> Seq<(Seq<char>, ComposeServiceView)> {
        self.services@.map_values(|s: (String, ComposeService)| (s.0@, s.1@))
    }
}

/// A port published on the same port of the host: `port:port`.
pub open spec fn port_mapping(port: nat) -> Seq<char> {
    decimal(port) + ":"@ + decimal(port)
}

/// The ports that the dev configuration publishes for debugging, where the app
/// is built for debugging.
pub open spec fn debug_ports(dev_conf: Option<Dev>, debug: bool) -> Seq<u16> {
    if debug {
        match dev_conf {
            Some(d) => match d.dofigen {
                Some(dofigen) => match dofigen.ports {
                    Some(p) => p@,
                    None => Seq::empty(),
                },
                None => Seq::empty(),
            },
            None => Seq::empty(),
        }
    } else {
        Seq::empty()
    }
}

/// The ports that the app publishes: the watchdog's where the app is exposed,
/// then the debug ports.
pub open spec fn app_ports(dev_conf: Option<Dev>, exposed: Seq<Service>, debug: bool) -> Seq<Seq<char>> {
    (if exposed.contains(Service::App) {
        seq![port_mapping(OF_WATCHDOG_PORT as nat)]
    } else {
        Seq::empty()
    }) + debug_ports(dev_conf, debug).map_values(|p: u16| port_mapping(p as nat))
}

/// The Postgres settings shared by the Postgres service and the devtool.
pub open spec fn postgres_env() -> Seq<(Seq<char>, Seq<char>)> {
    seq![
        ("POSTGRES_USER"@, "postgres"@),
        ("POSTGRES_PASSWORD"@, "postgres"@),
        ("POSTGRES_DB"@, "lenra_devtool"@),
    ]
}

/// An HTTP address of a service: `http://name:port`.
pub open spec fn service_url(name: Seq<char>, port: nat) -> Seq<char> {
    "http://"@ + name + ":"@ + decimal(port)
}

/// The devtool's settings.
pub open spec fn devtool_env() -> Seq<(Seq<char>, Seq<char>)> {
    postgres_env() + seq![
        ("POSTGRES_HOST"@, POSTGRES_SERVICE_NAME@),
        ("OF_WATCHDOG_URL"@, service_url(APP_SERVICE_NAME@, OF_WATCHDOG_PORT as nat)),
        ("LENRA_API_URL"@, service_url(DEVTOOL_SERVICE_NAME@, DEVTOOL_PORT as nat)),
        ("MONGO_HOSTNAME"@, MONGO_SERVICE_NAME@),
    ]
}

/// The replica set configuration that the MongoDB service initiates.
pub open spec fn mongo_replica_config() -> Seq<char> {
    "{\"_id\" : \"rs0\", \"members\" : [{\"_id\" : 0,\"host\" : \""@ + MONGO_SERVICE_NAME@ + ":"@
        + decimal(MONGO_PORT as nat) + "\"}]}"@
}

/// The MongoDB service's settings.
pub open spec fn mongo_env() -> Seq<(Seq<char>, Seq<char>)> {
    seq![("MONGO_INITDB_DATABASE"@, "test"@), ("CONFIG"@, mongo_replica_config())]
}

/// The MongoDB service's health check test.
pub open spec fn mongo_healthcheck_test() -> Seq<char> {
    "test $$(echo \"rs.initiate($$CONFIG).ok || rs.status().ok\" | mongo --quiet) -eq 1"@
}

/// A health check that runs every second, five times at most, after the given
/// start period.
pub open spec fn healthcheck_view(test: ComposeHealthcheckTestView, start_period: Seq<char>) -> ComposeHealthcheckView {
    ComposeHealthcheckView {
        test,
        start_period: Some(start_period),
        interval: Some("1s"@),
        timeout: None,
        retries: 5,
        disable: false,
    }
}

/// A service with only an image.
pub open spec fn image_only_service(image: Seq<char>) -> ComposeServiceView {
    ComposeServiceView {
        image,
        ports: None,
        build: None,
        user: None,
        memory: None,
        environment: None,
        healthcheck: None,
        depends_on: None,
        command: None,
    }
}

/// The app service: built from the Dockerfile with the parent directory as
/// context, run by a non-root user with limited memory, publishing its ports
/// where there are any.
pub open spec fn app_service(image: Seq<char>, dockerfile: Seq<char>, ports: Seq<Seq<char>>) -> ComposeServiceView {
    ComposeServiceView {
        ports: if ports.len() == 0 {
            None
        } else {
            Some(ports)
        },
        build: Some((".."@, dockerfile)),
        user: Some(NON_ROOT_USER@),
        memory: Some((MEMORY_LIMIT@, MEMORY_RESERVATION@)),
        ..image_only_service(image)
    }
}

/// The devtool service: published on its port, healthy once it answers, and
/// started once Postgres and MongoDB are healthy.
pub open spec fn devtool_service(image: Seq<char>) -> ComposeServiceView {
    ComposeServiceView {
        ports: Some(seq![port_mapping(DEVTOOL_PORT as nat)]),
        environment: Some(devtool_env()),
        healthcheck: Some(
            healthcheck_view(
                ComposeHealthcheckTestView::Multiple(
                    seq!["CMD"@, "wget"@, "--spider"@, "-q"@, "http://localhost:4000/health"@],
                ),
                "10s"@,
            ),
        ),
        depends_on: Some(
            seq![
                (POSTGRES_SERVICE_NAME@, "service_healthy"@),
                (MONGO_SERVICE_NAME@, "service_healthy"@),
            ],
        ),
        ..image_only_service(image)
    }
}

/// The Postgres service, published where it is exposed.
pub open spec fn postgres_service(image: Seq<char>, exposed: bool) -> ComposeServiceView {
    ComposeServiceView {
        ports: if exposed {
            Some(seq![port_mapping(POSTGRES_PORT as nat)])
        } else {
            None
        },
        environment: Some(postgres_env()),
        healthcheck: Some(
            healthcheck_view(
                ComposeHealthcheckTestView::Multiple(
                    seq!["CMD"@, "pg_isready"@, "-U"@, "postgres"@],
                ),
                "5s"@,
            ),
        ),
        ..image_only_service(image)
    }
}

/// The MongoDB service, run as a replica set, published where it is exposed.
pub open spec fn mongo_service(image: Seq<char>, exposed: bool) -> ComposeServiceView {
    ComposeServiceView {
        ports: if exposed {
            Some(seq![port_mapping(MONGO_PORT as nat)])
        } else {
            None
        },
        environment: Some(mongo_env()),
        healthcheck: Some(
            healthcheck_view(ComposeHealthcheckTestView::Single(mongo_healthcheck_test()), "5s"@),
        ),
        command: Some("mongod --replSet rs0"@),
        ..image_only_service(image)
    }
}

/// The Docker Compose file of the app and its environment: the app, the
/// devtool, Postgres and MongoDB services, in that order.
pub open spec fn compose_view(
    dockerfile: Seq<char>,
    dev_conf: Option<Dev>,
    exposed: Seq<Service>,
    debug: bool,
    images: ServiceImages,
) -> Seq<(Seq<char>, ComposeServiceView)> {
    seq![
        (APP_SERVICE_NAME@, app_service(images.app@, dockerfile, app_ports(dev_conf, exposed, debug))),
        (DEVTOOL_SERVICE_NAME@, devtool_service(images.devtool@)),
        (POSTGRES_SERVICE_NAME@, postgres_service(images.postgres@, exposed.contains(Service::Postgres))),
        (MONGO_SERVICE_NAME@, mongo_service(images.mongo@, exposed.contains(Service::Mongo))),
    ]
}

} // verus!

verus! {

/// A copy of a list of services.
pub fn clone_services(v: &Vec<Service>) -> (r: Vec<Service>)
    ensures
        r@ == v@,
{
    let mut r: Vec<Service> = Vec::new();
    let mut i: usize = 0;
    while i < v.len()
        invariant
            0 <= i <= v.len(),
            r@ == v@.take(i as int),
        decreases v.len() - i,
    {
        r.push(v[i]);
        proof {
            assert(v@.take(i + 1) =~= v@.take(i as int).push(v@[i as int]));
        }
        i += 1;
    }
    proof {
        assert(v@.take(i as int) =~= v@);
    }
    r
}

/// Whether a service is among the exposed ones.
pub fn is_exposed(exposed: &Vec<Service>, service: Service) -> (r: bool)
    ensures
        r == exposed@.contains(service),
{
    let mut i: usize = 0;
    while i < exposed.len()
        invariant
            0 <= i <= exposed.len(),
            forall|j: int| 0 <= j < i ==> exposed@[j] != service,
        decreases exposed.len() - i,
    {
        if exposed[i] == service {
            proof {
                assert(exposed@[i as int] == service);
            }
            return true;
        }
        i += 1;
    }
    false
}

/// A port published on the same port of the host.
pub fn port_mapping_text(port: u16) -> (r: String)
    ensures
        r@ == port_mapping(port as nat),
{
    let p = to_decimal(port as usize);
    concat3(p.as_str(), ":", p.as_str())
}

fn service_url_text(name: &str, port: u16) -> (r: String)
    ensures
        r@ == service_url(name@, port as nat),
{
    let p = to_decimal(port as usize);
    let mut r = concat3("http://", name, ":");
    r.append(p.as_str());
    r
}

fn some_pairs(v: Vec<(String, String)>) -> (r: Option<Vec<(String, String)>>)
    ensures
        r is Some,
        r->0@ == v@,
{
    Some(v)
}

fn make_healthcheck(test: ComposeHealthcheckTest, start_period: &str) -> (r: ComposeHealthcheck)
    ensures
        r@ == healthcheck_view(
            (ComposeHealthcheck {
                test,
                start_period: None,
                interval: None,
                timeout: None,
                retries: 0,
                disable: false,
            })@.test,
            start_period@,
        ),
{
    ComposeHealthcheck {
        test,
        start_period: Some(owned(start_period)),
        interval: Some(owned("1s")),
        timeout: None,
        retries: 5,
        disable: false,
    }
}

fn postgres_env_pairs() -> (r: Vec<(String, String)>)
    ensures
        pairs_view(r@) == postgres_env(),
{
    let r = vec![
        (owned("POSTGRES_USER"), owned("postgres")),
        (owned("POSTGRES_PASSWORD"), owned("postgres")),
        (owned("POSTGRES_DB"), owned("lenra_devtool")),
    ];
    proof {
        assert(pairs_view(r@) =~= postgres_env());
    }
    r
}

fn app_ports_list(dev_conf: &Option<Dev>, exposed: &Vec<Service>, debug: bool) -> (r: Vec<String>)
    ensures
        strings_view(r@) == app_ports(*dev_conf, exposed@, debug),
{
    let mut r: Vec<String> = Vec::new();
    if is_exposed(exposed, Service::App) {
        r.push(port_mapping_text(OF_WATCHDOG_PORT));
    }
    let ghost head = strings_view(r@);
    proof {
        assert(head =~= (if exposed@.contains(Service::App) {
            seq![port_mapping(OF_WATCHDOG_PORT as nat)]
        } else {
            Seq::empty()
        }));
    }
    if debug {
        if let Some(conf) = dev_conf {
            if let Some(dofigen) = &conf.dofigen {
                if let Some(ports) = &dofigen.ports {
                    let ghost mapped = ports@.map_values(|p: u16| port_mapping(p as nat));
                    let mut i: usize = 0;
                    while i < ports.len()
                        invariant
                            0 <= i <= ports.len(),
                            mapped == ports@.map_values(|p: u16| port_mapping(p as nat)),
                            strings_view(r@) == head + mapped.take(i as int),
                        decreases ports.len() - i,
                    {
                        let ghost before = r@;
                        r.push(port_mapping_text(ports[i]));
                        proof {
                            assert(strings_view(r@) =~= strings_view(before).push(
                                port_mapping(ports@[i as int] as nat),
                            ));
                            assert(mapped.take(i + 1) =~= mapped.take(i as int).push(
                                mapped[i as int],
                            ));
                        }
                        i += 1;
                    }
                    proof {
                        assert(mapped.take(i as int) =~= mapped);
                    }
                    return r;
                }
            }
        }
    }
    proof {
        assert(debug_ports(*dev_conf, debug) =~= Seq::empty());
        assert(strings_view(r@) =~= app_ports(*dev_conf, exposed@, debug));
    }
    r
}

fn app_service_of(image: String, dockerfile: &str, ports: Vec<String>) -> (r: ComposeService)
    ensures
        r@ == app_service(image@, dockerfile@, strings_view(ports@)),
{
    let ports = if ports.len() == 0 {
        None
    } else {
        Some(ports)
    };
    ComposeService {
        image,
        ports,
        build: Some(ComposeBuild { context: owned(".."), dockerfile: owned(dockerfile) }),
        user: Some(owned(NON_ROOT_USER)),
        memory: Some(
            ComposeMemory { limit: owned(MEMORY_LIMIT), reservation: owned(MEMORY_RESERVATION) },
        ),
        environment: None,
        healthcheck: None,
        depends_on: None,
        command: None,
    }
}

fn devtool_service_of(image: String) -> (r: ComposeService)
    ensures
        r@ == devtool_service(image@),
{
    let mut env = postgres_env_pairs();
    env.push((owned("POSTGRES_HOST"), owned(POSTGRES_SERVICE_NAME)));
    env.push((owned("OF_WATCHDOG_URL"), service_url_text(APP_SERVICE_NAME, OF_WATCHDOG_PORT)));
    env.push((owned("LENRA_API_URL"), service_url_text(DEVTOOL_SERVICE_NAME, DEVTOOL_PORT)));
    env.push((owned("MONGO_HOSTNAME"), owned(MONGO_SERVICE_NAME)));
    proof {
        assert(pairs_view(env@) =~= devtool_env());
    }
    let test = vec![
        owned("CMD"),
        owned("wget"),
        owned("--spider"),
        owned("-q"),
        owned("http://localhost:4000/health"),
    ];
    proof {
        assert(strings_view(test@) =~= seq![
            "CMD"@,
            "wget"@,
            "--spider"@,
            "-q"@,
            "http://localhost:4000/health"@,
        ]);
    }
    let depends_on = vec![
        (owned(POSTGRES_SERVICE_NAME), owned("service_healthy")),
        (owned(MONGO_SERVICE_NAME), owned("service_healthy")),
    ];
    proof {
        assert(pairs_view(depends_on@) =~= seq![
            (POSTGRES_SERVICE_NAME@, "service_healthy"@),
            (MONGO_SERVICE_NAME@, "service_healthy"@),
        ]);
    }
    let r = ComposeService {
        image,
        ports: Some(vec![port_mapping_text(DEVTOOL_PORT)]),
        build: None,
        user: None,
        memory: None,
        environment: some_pairs(env),
        healthcheck: Some(make_healthcheck(ComposeHealthcheckTest::Multiple(test), "10s")),
        depends_on: some_pairs(depends_on),
        command: None,
    };
    proof {
        assert(r@.ports->0 =~= seq![port_mapping(DEVTOOL_PORT as nat)]);
    }
    r
}

fn postgres_service_of(image: String, exposed: bool) -> (r: ComposeService)
    ensures
        r@ == postgres_service(image@, exposed),
{
    let test = vec![owned("CMD"), owned("pg_isready"), owned("-U"), owned("postgres")];
    proof {
        assert(strings_view(test@) =~= seq!["CMD"@, "pg_isready"@, "-U"@, "postgres"@]);
    }
    let ports = if exposed {
        Some(vec![port_mapping_text(POSTGRES_PORT)])
    } else {
        None
    };
    let r = ComposeService {
        image,
        ports,
        build: None,
        user: None,
        memory: None,
        environment: some_pairs(postgres_env_pairs()),
        healthcheck: Some(make_healthcheck(ComposeHealthcheckTest::Multiple(test), "5s")),
        depends_on: None,
        command: None,
    };
    proof {
        if exposed {
            assert(r@.ports->0 =~= seq![port_mapping(POSTGRES_PORT as nat)]);
        }
    }
    r
}

fn mongo_service_of(image: String, exposed: bool) -> (r: ComposeService)
    ensures
        r@ == mongo_service(image@, exposed),
{
    let mut config = concat3(
        "{\"_id\" : \"rs0\", \"members\" : [{\"_id\" : 0,\"host\" : \"",
        MONGO_SERVICE_NAME,
        ":",
    );
    let port = to_decimal(MONGO_PORT as usize);
    config.append(port.as_str());
    config.append("\"}]}");
    let env = vec![(owned("MONGO_INITDB_DATABASE"), owned("test")), (owned("CONFIG"), config)];
    proof {
        assert(pairs_view(env@) =~= mongo_env());
    }
    let ports = if exposed {
        Some(vec![port_mapping_text(MONGO_PORT)])
    } else {
        None
    };
    let test = owned(
        "test $$(echo \"rs.initiate($$CONFIG).ok || rs.status().ok\" | mongo --quiet) -eq 1",
    );
    let r = ComposeService {
        image,
        ports,
        build: None,
        user: None,
        memory: None,
        environment: some_pairs(env),
        healthcheck: Some(make_healthcheck(ComposeHealthcheckTest::Single(test), "5s")),
        depends_on: None,
        command: Some(owned("mongod --replSet rs0")),
    };
    proof {
        if exposed {
            assert(r@.ports->0 =~= seq![port_mapping(MONGO_PORT as nat)]);
        }
    }
    r
}

/// The Docker Compose file of the app and its local environment, for the given
/// Dockerfile, dev configuration, exposed services, debug mode and images.
pub fn compose_model(
    dockerfile: &str,
    dev_conf: &Option<Dev>,
    exposed_services: &Vec<Service>,
    debug: bool,
    images: ServiceImages,
) -> (r: Compose)
    ensures
        r@ == compose_view(dockerfile@, *dev_conf, exposed_services@, debug, images),
{
    let ghost imgs = images;
    let ports = app_ports_list(dev_conf, exposed_services, debug);
    let app = app_service_of(images.app, dockerfile, ports);
    let devtool = devtool_service_of(images.devtool);
    let postgres = postgres_service_of(
        images.postgres,
        is_exposed(exposed_services, Service::Postgres),
    );
    let mongo = mongo_service_of(images.mongo, is_exposed(exposed_services, Service::Mongo));
    let r = Compose {
        services: vec![
            (owned(APP_SERVICE_NAME), app),
            (owned(DEVTOOL_SERVICE_NAME), devtool),
            (owned(POSTGRES_SERVICE_NAME), postgres),
            (owned(MONGO_SERVICE_NAME), mongo),
        ],
    };
    proof {
        assert(r@ =~= compose_view(dockerfile@, *dev_conf, exposed_services@, debug, imgs));
    }
    r
}

} // verus!

verus! {

/// The arguments of Docker Compose that select the Compose file.
pub open spec fn compose_file_args(compose_file: Seq<char>) -> Seq<Seq<char>> {
    seq!["-f"@, compose_file]
}

/// The arguments of Docker Compose that start the containers in the
/// background and wait for them to run.
pub fn compose_up_args(compose_file: &str) -> (r: Vec<String>)
    ensures
        strings_view(r@) == compose_file_args(compose_file@) + seq!["up"@, "-d"@, "--wait"@],
{
    let r = vec![owned("-f"), owned(compose_file), owned("up"), owned("-d"), owned("--wait")];
    proof {
        assert(strings_view(r@) =~= compose_file_args(compose_file@) + seq![
            "up"@,
            "-d"@,
            "--wait"@,
        ]);
    }
    r
}

/// The arguments of Docker Compose that build the images.
pub fn compose_build_args(compose_file: &str) -> (r: Vec<String>)
    ensures
        strings_view(r@) == compose_file_args(compose_file@) + seq!["build"@],
{
    let r = vec![owned("-f"), owned(compose_file), owned("build")];
    proof {
        assert(strings_view(r@) =~= compose_file_args(compose_file@) + seq!["build"@]);
    }
    r
}

/// The arguments of Docker Compose that run a command in a service's container.
pub fn compose_exec_args(compose_file: &str, service: Service, command: &Vec<String>) -> (r: Vec<
    String,
>)
    ensures
        strings_view(r@) == compose_file_args(compose_file@) + seq!["exec"@, service_name(service)]
            + strings_view(command@),
{
    let mut r = vec![owned("-f"), owned(compose_file), owned("exec"), owned(service.to_str())];
    let ghost start = strings_view(r@);
    proof {
        assert(start =~= compose_file_args(compose_file@) + seq!["exec"@, service_name(service)]);
    }
    let mut i: usize = 0;
    while i < command.len()
        invariant
            0 <= i <= command.len(),
            strings_view(r@) == start + strings_view(command@).take(i as int),
        decreases command.len() - i,
    {
        let ghost before = r@;
        r.push(command[i].clone());
        proof {
            assert(strings_view(r@) =~= strings_view(before).push(command@[i as int]@));
            assert(strings_view(command@).take(i + 1) =~= strings_view(command@).take(i as int).push(
                command@[i as int]@,
            ));
        }
        i += 1;
    }
    proof {
        assert(strings_view(command@).take(i as int) =~= strings_view(command@));
    }
    r
}

/// The variable that makes Docker build the images with BuildKit.
pub const BUILDKIT_ENV_NAME: &'static str = "DOCKER_BUILDKIT";

/// The value that turns BuildKit on.
pub const BUILDKIT_ENV_VALUE: &'static str = "1";

} // verus!

verus! {

/// Each service has a name of its own in the Compose file.
pub proof fn lemma_service_names_distinct(a: Service, b: Service)
    requires
        a != b,
    ensures
        service_name(a) != service_name(b),
{
    reveal_strlit("app");
    reveal_strlit("devtool");
    reveal_strlit("postgres");
    reveal_strlit("mongodb");
    assert(APP_SERVICE_NAME@.len() == 3);
    assert(DEVTOOL_SERVICE_NAME@.len() == 7);
    assert(POSTGRES_SERVICE_NAME@.len() == 8);
    assert(MONGO_SERVICE_NAME@.len() == 7);
    assert(DEVTOOL_SERVICE_NAME@[0] != MONGO_SERVICE_NAME@[0]);
}

} // verus!

verus! {

/// Built for production, the app publishes the watchdog's port only where it
/// is exposed, and no debug port.
pub proof fn lemma_production_ports(dev_conf: Option<Dev>, exposed: Seq<Service>)
    ensures
        app_ports(dev_conf, exposed, false) == if exposed.contains(Service::App) {
            seq![port_mapping(OF_WATCHDOG_PORT as nat)]
        } else {
            Seq::<Seq<char>>::empty()
        },
{
    let none = debug_ports(dev_conf, false).map_values(|p: u16| port_mapping(p as nat));
    assert(none =~= Seq::<Seq<char>>::empty());
    if exposed.contains(Service::App) {
        assert(seq![port_mapping(OF_WATCHDOG_PORT as nat)] + none =~= seq![
            port_mapping(OF_WATCHDOG_PORT as nat),
        ]);
    } else {
        assert(Seq::<Seq<char>>::empty() + none =~= Seq::<Seq<char>>::empty());
    }
}

} // verus!

verus! {

/// The arguments of Docker Compose that stop and remove the containers.
pub fn compose_down_args(compose_file: &str) -> (r: Vec<String>)
    ensures
        strings_view(r@) == compose_file_args(compose_file@) + seq!["down"@],
{
    let r = vec![owned("-f"), owned(compose_file), owned("down")];
    proof {
        assert(strings_view(r@) =~= compose_file_args(compose_file@) + seq!["down"@]);
    }
    r
}

/// The arguments of Docker Compose that pull the images of the services.
pub fn compose_pull_args(compose_file: &str, services: &Vec<Service>) -> (r: Vec<String>)
    ensures
        strings_view(r@) == compose_file_args(compose_file@) + seq!["pull"@] + services@.map_values(
            |s: Service| service_name(s),
        ),
{
    let mut r = vec![owned("-f"), owned(compose_file), owned("pull")];
    let ghost start = strings_view(r@);
    let ghost names = services@.map_values(|s: Service| service_name(s));
    proof {
        assert(start =~= compose_file_args(compose_file@) + seq!["pull"@]);
    }
    let mut i: usize = 0;
    while i < services.len()
        invariant
            0 <= i <= services.len(),
            names == services@.map_values(|s: Service| service_name(s)),
            strings_view(r@) == start + names.take(i as int),
        decreases services.len() - i,
    {
        let ghost before = r@;
        r.push(owned(services[i].to_str()));
        proof {
            assert(strings_view(r@) =~= strings_view(before).push(names[i as int]));
            assert(names.take(i + 1) =~= names.take(i as int).push(names[i as int]));
        }
        i += 1;
    }
    proof {
        assert(names.take(i as int) =~= names);
    }
    r
}

/// The arguments of Docker Compose that list the services whose containers run.
pub fn compose_running_args(compose_file: &str) -> (r: Vec<String>)
    ensures
        strings_view(r@) == compose_file_args(compose_file@) + seq![
            "ps"@,
            "--services"@,
            "--filter"@,
            "status=running"@,
        ],
{
    let r = vec![
        owned("-f"),
        owned(compose_file),
        owned("ps"),
        owned("--services"),
        owned("--filter"),
        owned("status=running"),
    ];
    proof {
        assert(strings_view(r@) =~= compose_file_args(compose_file@) + seq![
            "ps"@,
            "--services"@,
            "--filter"@,
            "status=running"@,
        ]);
    }
    r
}

/// The service of that name in the Compose file, if any.
pub open spec fn service_named(name: Seq<char>) -> Option<Service> {
    if name == APP_SERVICE_NAME@ {
        Some(Service::App)
    } else if name == DEVTOOL_SERVICE_NAME@ {
        Some(Service::Devtool)
    } else if name == POSTGRES_SERVICE_NAME@ {
        Some(Service::Postgres)
    } else if name == MONGO_SERVICE_NAME@ {
        Some(Service::Mongo)
    } else {
        None
    }
}

/// The service of that name in the Compose file, if any.
pub fn service_of_name(name: &str) -> (r: Option<Service>)
    ensures
        r == service_named(name@),
{
    if crate::text::str_eq(name, APP_SERVICE_NAME) {
        Some(Service::App)
    } else if crate::text::str_eq(name, DEVTOOL_SERVICE_NAME) {
        Some(Service::Devtool)
    } else if crate::text::str_eq(name, POSTGRES_SERVICE_NAME) {
        Some(Service::Postgres)
    } else if crate::text::str_eq(name, MONGO_SERVICE_NAME) {
        Some(Service::Mongo)
    } else {
        None
    }
}

/// The services that the lines of Docker Compose's list name, in order; the
/// other lines are left out.
pub open spec fn listed_services(lines: Seq<Seq<char>>) -> Seq<Service>
    decreases lines.len(),
{
    if lines.len() == 0 {
        Seq::empty()
    } else {
        let before = listed_services(lines.drop_last());
        match service_named(lines.last()) {
            Some(s) => before.push(s),
            None => before,
        }
    }
}

/// The services that the words of Docker Compose's list name, in order.
pub fn running_services(output: &str) -> (r: Vec<Service>)
    ensures
        r@ == listed_services(crate::text::whitespace_words(output@)),
{
    let words = crate::text::split_whitespace(output);
    let ghost ws = words@.map_values(|w: String| w@);
    let mut r: Vec<Service> = Vec::new();
    let mut i: usize = 0;
    proof {
        assert(ws.take(0) =~= Seq::<Seq<char>>::empty());
    }
    while i < words.len()
        invariant
            0 <= i <= words.len(),
            ws == words@.map_values(|w: String| w@),
            r@ == listed_services(ws.take(i as int)),
        decreases words.len() - i,
    {
        proof {
            assert(ws.take(i + 1).drop_last() =~= ws.take(i as int));
            assert(ws.take(i + 1).last() == words@[i as int]@);
        }
        match service_of_name(words[i].as_str()) {
            Some(s) => r.push(s),
            None => {},
        }
        i += 1;
    }
    proof {
        assert(ws.take(i as int) =~= ws);
    }
    r
}

} // verus!

verus! {

// The Docker Compose file as text.

/// A memory limit and reservation, as Docker Compose reads them.
pub open spec fn deploy_json(limit: Seq<char>, reservation: Seq<char>) -> JsonView {
    JsonView::Obj(
        seq![
            (
                "resources"@,
                JsonView::Obj(
                    seq![
                        ("limits"@, JsonView::Obj(seq![("memory"@, JsonView::Str(limit))])),
                        ("reservations"@, JsonView::Obj(seq![("memory"@, JsonView::Str(reservation))])),
                    ],
                ),
            ),
        ],
    )
}

/// A health check, as Docker Compose reads it.
pub open spec fn compose_healthcheck_json(h: ComposeHealthcheckView) -> JsonView {
    JsonView::Obj(
        seq![
            (
                "test"@,
                match h.test {
                    ComposeHealthcheckTestView::Single(t) => JsonView::Str(t),
                    ComposeHealthcheckTestView::Multiple(v) => texts_json(v),
                },
            ),
        ] + opt_entry("start_period"@, opt_text_json(h.start_period)) + opt_entry(
            "interval"@,
            opt_text_json(h.interval),
        ) + opt_entry("timeout"@, opt_text_json(h.timeout)) + seq![
            ("retries"@, JsonView::Int(h.retries)),
            ("disable"@, JsonView::Bool(h.disable)),
        ],
    )
}

/// The services that a service depends on, each with its condition.
pub open spec fn depends_on_json(d: Seq<(Seq<char>, Seq<char>)>) -> JsonView {
    JsonView::Obj(
        d.map_values(
            |p: (Seq<char>, Seq<char>)|
                (p.0, JsonView::Obj(seq![("condition"@, JsonView::Str(p.1))])),
        ),
    )
}

/// A service, as Docker Compose reads it: each field under its name, the
/// absent ones left out.
pub open spec fn service_json(s: ComposeServiceView) -> JsonView {
    JsonView::Obj(
        seq![("image"@, JsonView::Str(s.image))] + opt_entry("ports"@, opt_texts_json(s.ports))
            + opt_entry(
            "build"@,
            match s.build {
                Some(b) => Some(
                    JsonView::Obj(
                        seq![("context"@, JsonView::Str(b.0)), ("dockerfile"@, JsonView::Str(b.1))],
                    ),
                ),
                None => None,
            },
        ) + opt_entry("user"@, opt_text_json(s.user)) + opt_entry(
            "deploy"@,
            match s.memory {
                Some(m) => Some(deploy_json(m.0, m.1)),
                None => None,
            },
        ) + opt_entry(
            "environment"@,
            match s.environment {
                Some(e) => Some(text_pairs_json(e)),
                None => None,
            },
        ) + opt_entry(
            "healthcheck"@,
            match s.healthcheck {
                Some(h) => Some(compose_healthcheck_json(h)),
                None => None,
            },
        ) + opt_entry(
            "depends_on"@,
            match s.depends_on {
                Some(d) => Some(depends_on_json(d)),
                None => None,
            },
        ) + opt_entry("command"@, opt_text_json(s.command)),
    )
}

/// The Docker Compose file, as Docker Compose reads it: its services under
/// their names, in order.
pub open spec fn compose_json(c: Seq<(Seq<char>, ComposeServiceView)>) -> JsonView {
    JsonView::Obj(
        seq![
            (
                "services"@,
                JsonView::Obj(
                    c.map_values(
                        |p: (Seq<char>, ComposeServiceView)| (p.0, service_json(p.1)),
                    ),
                ),
            ),
        ],
    )
}

impl ComposeHealthcheck {
    /// The health check as Docker Compose reads it.
    pub fn to_json(&self) -> (r: Json)
        ensures
            r@ == compose_healthcheck_json(self@),
    {
        let test = match &self.test {
            ComposeHealthcheckTest::Single(t) => Json::Str(t.clone()),
            ComposeHealthcheckTest::Multiple(v) => texts(v),
        };
        let mut e: Vec<(String, Json)> = Vec::new();
        push_entry(&mut e, "test", test);
        push_opt_text(&mut e, "start_period", &self.start_period);
        push_opt_text(&mut e, "interval", &self.interval);
        push_opt_text(&mut e, "timeout", &self.timeout);
        push_entry(&mut e, "retries", Json::Int(self.retries));
        push_entry(&mut e, "disable", Json::Bool(self.disable));
        proof {
            assert(entries_view(e@) =~= compose_healthcheck_json(self@)->Obj_0);
        }
        object(e)
    }
}

/// A memory limit and reservation as Docker Compose reads them.
fn deploy(m: &ComposeMemory) -> (r: Json)
    ensures
        r@ == deploy_json(m.limit@, m.reservation@),
{
    let mut limits: Vec<(String, Json)> = Vec::new();
    push_entry(&mut limits, "memory", Json::Str(m.limit.clone()));
    proof {
        assert(entries_view(limits@) =~= seq![("memory"@, JsonView::Str(m.limit@))]);
    }
    let mut reservations: Vec<(String, Json)> = Vec::new();
    push_entry(&mut reservations, "memory", Json::Str(m.reservation.clone()));
    proof {
        assert(entries_view(reservations@) =~= seq![("memory"@, JsonView::Str(m.reservation@))]);
    }
    let mut resources: Vec<(String, Json)> = Vec::new();
    push_entry(&mut resources, "limits", object(limits));
    push_entry(&mut resources, "reservations", object(reservations));
    proof {
        assert(entries_view(resources@) =~= deploy_json(m.limit@, m.reservation@)->Obj_0[0].1->Obj_0);
    }
    let mut e: Vec<(String, Json)> = Vec::new();
    push_entry(&mut e, "resources", object(resources));
    proof {
        assert(entries_view(e@) =~= deploy_json(m.limit@, m.reservation@)->Obj_0);
    }
    object(e)
}

/// The services that a service depends on, each with its condition.
fn depends_on(d: &Vec<(String, String)>) -> (r: Json)
    ensures
        r@ == depends_on_json(pairs_view(d@)),
{
    let mut entries: Vec<(String, Json)> = Vec::new();
    let mut i: usize = 0;
    while i < d.len()
        invariant
            0 <= i <= d.len(),
            entries@.len() == i,
            forall|j: int|
                0 <= j < i ==> (#[trigger] entries@[j]).0@ == d@[j].0@ && entries@[j].1@
                    == JsonView::Obj(seq![("condition"@, JsonView::Str(d@[j].1@))]),
        decreases d.len() - i,
    {
        let mut condition: Vec<(String, Json)> = Vec::new();
        push_entry(&mut condition, "condition", Json::Str(d[i].1.clone()));
        let c = object(condition);
        proof {
            assert(c@ =~= JsonView::Obj(seq![("condition"@, JsonView::Str(d@[i as int].1@))]));
        }
        entries.push((d[i].0.clone(), c));
        i += 1;
    }
    let r = Json::Obj(entries);
    proof {
        assert(r@->Obj_0 =~= depends_on_json(pairs_view(d@))->Obj_0);
    }
    r
}

impl ComposeService {
    /// The service as Docker Compose reads it.
    pub fn to_json(&self) -> (r: Json)
        ensures
            r@ == service_json(self@),
    {
        let mut e: Vec<(String, Json)> = Vec::new();
        push_entry(&mut e, "image", Json::Str(self.image.clone()));
        push_opt_texts(&mut e, "ports", &self.ports);
        match &self.build {
            Some(b) => {
                let mut build: Vec<(String, Json)> = Vec::new();
                push_entry(&mut build, "context", Json::Str(b.context.clone()));
                push_entry(&mut build, "dockerfile", Json::Str(b.dockerfile.clone()));
                proof {
                    assert(entries_view(build@) =~= seq![
                        ("context"@, JsonView::Str(b.context@)),
                        ("dockerfile"@, JsonView::Str(b.dockerfile@)),
                    ]);
                }
                let bj = object(build);
                push_entry(&mut e, "build", bj);
            },
            None => {
                proof {
                    assert(entries_view(e@) + Seq::empty() =~= entries_view(e@));
                }
            },
        }
        push_opt_text(&mut e, "user", &self.user);
        match &self.memory {
            Some(m) => push_entry(&mut e, "deploy", deploy(m)),
            None => {
                proof {
                    assert(entries_view(e@) + Seq::empty() =~= entries_view(e@));
                }
            },
        }
        match &self.environment {
            Some(v) => push_entry(&mut e, "environment", text_pairs(v)),
            None => {
                proof {
                    assert(entries_view(e@) + Seq::empty() =~= entries_view(e@));
                }
            },
        }
        match &self.healthcheck {
            Some(h) => push_entry(&mut e, "healthcheck", h.to_json()),
            None => {
                proof {
                    assert(entries_view(e@) + Seq::empty() =~= entries_view(e@));
                }
            },
        }
        match &self.depends_on {
            Some(d) => push_entry(&mut e, "depends_on", depends_on(d)),
            None => {
                proof {
                    assert(entries_view(e@) + Seq::empty() =~= entries_view(e@));
                }
            },
        }
        push_opt_text(&mut e, "command", &self.command);
        proof {
            assert(entries_view(e@) =~= service_json(self@)->Obj_0);
        }
        object(e)
    }
}

impl Compose {
    /// The file as Docker Compose reads it.
    pub fn to_json(&self) -> (r: Json)
        ensures
            r@ == compose_json(self@),
    {
        let mut services: Vec<(String, Json)> = Vec::new();
        let mut i: usize = 0;
        while i < self.services.len()
            invariant
                0 <= i <= self.services.len(),
                services@.len() == i,
                forall|j: int|
                    0 <= j < i ==> (#[trigger] services@[j]).0@ == self.services@[j].0@
                        && services@[j].1@ == service_json(self.services@[j].1@),
            decreases self.services.len() - i,
        {
            services.push((self.services[i].0.clone(), self.services[i].1.to_json()));
            i += 1;
        }
        let inner = Json::Obj(services);
        proof {
            assert(inner@->Obj_0 =~= compose_json(self@)->Obj_0[0].1->Obj_0);
        }
        let mut e: Vec<(String, Json)> = Vec::new();
        push_entry(&mut e, "services", inner);
        let r = object(e);
        proof {
            assert(r@ =~= compose_json(self@));
        }
        r
    }
}

/// What `serde_yaml::to_string` writes of the Docker Compose file read from
/// that JSON text, or the message of the refusal.
pub uninterp spec fn compose_yaml(json: Seq<char>) -> Result<Seq<char>, Seq<char>>;

/// `serde_json::from_str` reads a `docker_compose_types::Compose` from its JSON
/// text, then `serde_yaml::to_string` writes it as YAML: the text, or the
/// message of the first that refuses, is a function of the JSON text.
#[verifier::external_body]
fn compose_yaml_of(json: &str) -> (r: Result<String, String>)
    ensures
        match r {
            Ok(y) => compose_yaml(json@) == Ok::<Seq<char>, Seq<char>>(y@),
            Err(m) => compose_yaml(json@) == Err::<Seq<char>, Seq<char>>(m@),
        },
{
    let file: docker_compose_types::Compose = serde_json::from_str(json).map_err(|e| e.to_string())?;
    serde_yaml::to_string(&file).map_err(|e| e.to_string())
}

/// The YAML text of the Docker Compose file, or the serialization error.
pub open spec fn compose_text_of(c: Seq<(Seq<char>, ComposeServiceView)>) -> Result<Seq<char>, Seq<char>> {
    compose_yaml(json_text(compose_json(c)))
}

impl Compose {
    /// The file's YAML text, as Docker Compose reads it; an error where the
    /// YAML library refuses it.
    pub fn to_yaml(&self) -> (r: Result<String, Error>)
        ensures
            match compose_text_of(self@) {
                Ok(y) => r matches Ok(t) && t@ == y,
                Err(m) => r matches Err(Error::Deserialize(t)) && t@ == m,
            },
    {
        let json = self.to_json().to_text();
        match compose_yaml_of(json.as_str()) {
            Ok(y) => Ok(y),
            Err(m) => Err(Error::Deserialize(m)),
        }
    }
}

/// The Docker Compose file of the app and its local environment as YAML text,
/// for the given Dockerfile, dev configuration, exposed services, debug mode
/// and images.
pub fn generate_docker_compose_content(
    dockerfile: &str,
    dev_conf: &Option<Dev>,
    exposed_services: &Vec<Service>,
    debug: bool,
    images: ServiceImages,
) -> (r: Result<String, Error>)
    ensures
        match compose_text_of(compose_view(dockerfile@, *dev_conf, exposed_services@, debug, images)) {
            Ok(y) => r matches Ok(t) && t@ == y,
            Err(m) => r matches Err(Error::Deserialize(t)) && t@ == m,
        },
{
    let compose = compose_model(dockerfile, dev_conf, exposed_services, debug, images);
    compose.to_yaml()
}

} // verus!


verus! {

/// A database service publishes its own port, on the same port of the host,
/// exactly where that database is exposed: `postgres` publishes `5432:5432`
/// where Postgres is exposed, `mongodb` publishes `27017:27017` where MongoDB
/// is, and neither publishes anything otherwise.
pub proof fn lemma_exposed_database_ports(
    dockerfile: Seq<char>,
    dev_conf: Option<Dev>,
    exposed: Seq<Service>,
    debug: bool,
    images: ServiceImages,
)
    ensures
        compose_view(dockerfile, dev_conf, exposed, debug, images)[2].0 == "postgres"@,
        compose_view(dockerfile, dev_conf, exposed, debug, images)[2].1.ports == if exposed.contains(
            Service::Postgres,
        ) {
            Some(seq!["5432:5432"@])
        } else {
            None
        },
        compose_view(dockerfile, dev_conf, exposed, debug, images)[3].0 == "mongodb"@,
        compose_view(dockerfile, dev_conf, exposed, debug, images)[3].1.ports == if exposed.contains(
            Service::Mongo,
        ) {
            Some(seq!["27017:27017"@])
        } else {
            None
        },
{
    reveal_strlit("postgres");
    reveal_strlit("mongodb");
    reveal_strlit("5432:5432");
    reveal_strlit("27017:27017");
    reveal_strlit(":");
    reveal_with_fuel(decimal, 6);
    assert(decimal(5432) =~= seq!['5', '4', '3', '2']);
    assert(decimal(27017) =~= seq!['2', '7', '0', '1', '7']);
    assert(port_mapping(5432) =~= "5432:5432"@);
    assert(port_mapping(27017) =~= "27017:27017"@);
}

} // verus!
