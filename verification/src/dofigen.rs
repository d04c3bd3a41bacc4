//! The model of a Dofigen descriptor: the description of a Docker image from
//! which Dofigen writes a Dockerfile.
//!
//! Environment variables are held as a list of pairs, each name once.

use vstd::prelude::*;
use vstd::string::*;

use crate::config::{clone_opt_string, clone_strings, opt_string_view, strings_view};
use crate::json::{
    entries_view, json_text, object, opt_entry, opt_text_json, opt_texts_json, push_entry, push_opt_text,
    push_opt_texts, text_pairs, text_pairs_json, texts_json, Json, JsonView,
};
use crate::docker_compose::pairs_view;
use crate::errors::Error;
use crate::text::{concat2, contains_str, decimal, str_eq, to_decimal};

verus! {

/// A file copied from a builder into the image.
#[derive(Debug, Default, PartialEq)]
pub struct Artifact {
    pub builder: String,
    pub source: String,
    pub destination: String,
}

/// The part of the image built as the root user.
#[derive(Debug, Default, PartialEq)]
pub struct Root {
    pub script: Option<Vec<String>>,
    pub caches: Option<Vec<String>>,
}

/// The image's health check.
#[derive(Debug, Default, PartialEq)]
pub struct Healthcheck {
    pub cmd: String,
    pub interval: Option<String>,
    pub timeout: Option<String>,
    pub start: Option<String>,
    pub retries: Option<u16>,
}

/// An image built beside the main one, from which artifacts are copied.
#[derive(Debug, Default, PartialEq)]
pub struct Builder {
    pub image: String,
    pub user: Option<String>,
    pub workdir: Option<String>,
    pub envs: Option<Vec<(String, String)>>,
    pub artifacts: Option<Vec<Artifact>>,
    pub adds: Option<Vec<String>>,
    pub root: Option<Root>,
    pub script: Option<Vec<String>>,
    pub caches: Option<Vec<String>>,
    pub name: Option<String>,
}

/// A Dofigen descriptor.
#[derive(Debug, Default, PartialEq)]
pub struct DofigenImage {
    pub image: String,
    pub user: Option<String>,
    pub workdir: Option<String>,
    pub envs: Option<Vec<(String, String)>>,
    pub artifacts: Option<Vec<Artifact>>,
    pub adds: Option<Vec<String>>,
    pub root: Option<Root>,
    pub script: Option<Vec<String>>,
    pub caches: Option<Vec<String>>,
    pub builders: Option<Vec<Builder>>,
    pub context: Option<Vec<String>>,
    pub ignores: Option<Vec<String>>,
    pub entrypoint: Option<Vec<String>>,
    pub cmd: Option<Vec<String>>,
    pub ports: Option<Vec<u16>>,
    pub healthcheck: Option<Healthcheck>,
}

/// The model of an [`Artifact`].
pub struct ArtifactView {
    pub builder: Seq<char>,
    pub source: Seq<char>,
    pub destination: Seq<char>,
}

/// The model of a [`Root`].
pub struct RootView {
    pub script: Option<Seq<Seq<char>>>,
    pub caches: Option<Seq<Seq<char>>>,
}

/// The model of a [`Healthcheck`].
pub struct HealthcheckView {
    pub cmd: Seq<char>,
    pub interval: Option<Seq<char>>,
    pub timeout: Option<Seq<char>>,
    pub start: Option<Seq<char>>,
    pub retries: Option<u16>,
}

/// The model of a [`Builder`].
pub struct BuilderView {
    pub image: Seq<char>,
    pub user: Option<Seq<char>>,
    pub workdir: Option<Seq<char>>,
    pub envs: Option<Seq<(Seq<char>, Seq<char>)>>,
    pub artifacts: Option<Seq<ArtifactView>>,
    pub adds: Option<Seq<Seq<char>>>,
    pub root: Option<RootView>,
    pub script: Option<Seq<Seq<char>>>,
    pub caches: Option<Seq<Seq<char>>>,
    pub name: Option<Seq<char>>,
}

/// The model of a [`DofigenImage`].
pub struct DofigenImageView {
    pub image: Seq<char>,
    pub user: Option<Seq<char>>,
    pub workdir: Option<Seq<char>>,
    pub envs: Option<Seq<(Seq<char>, Seq<char>)>>,
    pub artifacts: Option<Seq<ArtifactView>>,
    pub adds: Option<Seq<Seq<char>>>,
    pub root: Option<RootView>,
    pub script: Option<Seq<Seq<char>>>,
    pub caches: Option<Seq<Seq<char>>>,
    pub builders: Option<Seq<BuilderView>>,
    pub context: Option<Seq<Seq<char>>>,
    pub ignores: Option<Seq<Seq<char>>>,
    pub entrypoint: Option<Seq<Seq<char>>>,
    pub cmd: Option<Seq<Seq<char>>>,
    pub ports: Option<Seq<u16>>,
    pub healthcheck: Option<HealthcheckView>,
}

/// The view of an optional list of strings.
pub open spec fn opt_strings_view(o: Option<Vec<String>>) -> Option<Seq<Seq<char>>> {
    match o {
        Some(v) => Some(strings_view(v@)),
        None => None,
    }
}

/// The view of a list of variables.
pub open spec fn env_view(v: Seq<(String, String)>) -> Seq<(Seq<char>, Seq<char>)> {
    v.map_values(|p: (String, String)| (p.0@, p.1@))
}

/// The view of an optional list of variables.
pub open spec fn opt_env_view(o: Option<Vec<(String, String)>>) -> Option<Seq<(Seq<char>, Seq<char>)>> {
    match o {
        Some(v) => Some(env_view(v@)),
        None => None,
    }
}

impl View for Artifact {
    type V = ArtifactView;

    open spec fn view(&self) -> ArtifactView {
        ArtifactView { builder: self.builder@, source: self.source@, destination: self.destination@ }
    }
}

/// The view of an optional list of artifacts.
pub open spec fn opt_artifacts_view(o: Option<Vec<Artifact>>) -> Option<Seq<ArtifactView>> {
    match o {
        Some(v) => Some(v@.map_values(|a: Artifact| a@)),
        None => None,
    }
}

impl View for Root {
    type V = RootView;

    open spec fn view(&self) -> RootView {
        RootView { script: opt_strings_view(self.script), caches: opt_strings_view(self.caches) }
    }
}

/// The view of an optional root part.
pub open spec fn opt_root_view(o: Option<Root>) -> Option<RootView> {
    match o {
        Some(r) => Some(r@),
        None => None,
    }
}

impl View for Healthcheck {
    type V = HealthcheckView;

    open spec fn view(&self) -> HealthcheckView {
        HealthcheckView {
            cmd: self.cmd@,
            interval: opt_string_view(self.interval),
            timeout: opt_string_view(self.timeout),
            start: opt_string_view(self.start),
            retries: self.retries,
        }
    }
}

/// The view of an optional health check.
pub open spec fn opt_healthcheck_view(o: Option<Healthcheck>) -> Option<HealthcheckView> {
    match o {
        Some(h) => Some(h@),
        None => None,
    }
}

impl View for Builder {
    type V = BuilderView;

    open spec fn view(&self) -> BuilderView {
        BuilderView {
            image: self.image@,
            user: opt_string_view(self.user),
            workdir: opt_string_view(self.workdir),
            envs: opt_env_view(self.envs),
            artifacts: opt_artifacts_view(self.artifacts),
            adds: opt_strings_view(self.adds),
            root: opt_root_view(self.root),
            script: opt_strings_view(self.script),
            caches: opt_strings_view(self.caches),
            name: opt_string_view(self.name),
        }
    }
}

/// The view of an optional list of builders.
pub open spec fn opt_builders_view(o: Option<Vec<Builder>>) -> Option<Seq<BuilderView>> {
    match o {
        Some(v) => Some(v@.map_values(|b: Builder| b@)),
        None => None,
    }
}

impl View for DofigenImage {
    type V = DofigenImageView;

    open spec fn view(&self) -> DofigenImageView {
        DofigenImageView {
            image: self.image@,
            user: opt_string_view(self.user),
            workdir: opt_string_view(self.workdir),
            envs: opt_env_view(self.envs),
            artifacts: opt_artifacts_view(self.artifacts),
            adds: opt_strings_view(self.adds),
            root: opt_root_view(self.root),
            script: opt_strings_view(self.script),
            caches: opt_strings_view(self.caches),
            builders: opt_builders_view(self.builders),
            context: opt_strings_view(self.context),
            ignores: opt_strings_view(self.ignores),
            entrypoint: opt_strings_view(self.entrypoint),
            cmd: opt_strings_view(self.cmd),
            ports: match self.ports {
                Some(p) => Some(p@),
                None => None,
            },
            healthcheck: opt_healthcheck_view(self.healthcheck),
        }
    }
}

/// Each name stands once among the variables.
pub open spec fn distinct_names(envs: Seq<(Seq<char>, Seq<char>)>) -> bool {
    forall|i: int, j: int| 0 <= i < j < envs.len() ==> envs[i].0 != envs[j].0
}

/// The variables set a value for that name.
pub open spec fn env_has(envs: Seq<(Seq<char>, Seq<char>)>, name: Seq<char>) -> bool {
    exists|j: int| 0 <= j < envs.len() && envs[j].0 == name
}

/// The index of the first variable of that name.
pub open spec fn env_index(envs: Seq<(Seq<char>, Seq<char>)>, name: Seq<char>) -> int {
    choose|j: int|
        0 <= j < envs.len() && envs[j].0 == name && forall|l: int|
            0 <= l < j ==> envs[l].0 != name
}

/// The variables with that name set to that value: the value replaced where
/// the name is set, else the variable added at the end.
pub open spec fn env_insert(envs: Seq<(Seq<char>, Seq<char>)>, name: Seq<char>, value: Seq<char>) -> Seq<
    (Seq<char>, Seq<char>),
> {
    if env_has(envs, name) {
        envs.update(env_index(envs, name), (name, value))
    } else {
        envs.push((name, value))
    }
}

/// Whether a variable of that name is set.
pub fn env_contains(envs: &Vec<(String, String)>, name: &str) -> (r: bool)
    ensures
        r == env_has(env_view(envs@), name@),
{
    let mut i: usize = 0;
    while i < envs.len()
        invariant
            0 <= i <= envs.len(),
            forall|l: int| 0 <= l < i ==> (#[trigger] envs@[l]).0@ != name@,
        decreases envs.len() - i,
    {
        if str_eq(envs[i].0.as_str(), name) {
            proof {
                assert(env_view(envs@)[i as int].0 == name@);
            }
            return true;
        }
        i += 1;
    }
    proof {
        assert forall|j: int| 0 <= j < envs@.len() implies env_view(envs@)[j].0 != name@ by {
            assert(envs@[j].0@ != name@);
        }
    }
    false
}

/// Sets a variable: replaces its value where it is set, else adds it at the end.
pub fn env_set(envs: &mut Vec<(String, String)>, name: String, value: String)
    ensures
        env_view(final(envs)@) == env_insert(env_view(old(envs)@), name@, value@),
        distinct_names(env_view(old(envs)@)) ==> distinct_names(env_view(final(envs)@)),
{
    let ghost old_view = env_view(envs@);
    let mut i: usize = 0;
    while i < envs.len()
        invariant
            0 <= i <= envs.len(),
            old_view == env_view(envs@),
            envs@ == old(envs)@,
            forall|l: int| 0 <= l < i ==> (#[trigger] envs@[l]).0@ != name@,
        decreases envs.len() - i,
    {
        if str_eq(envs[i].0.as_str(), name.as_str()) {
            proof {
                assert(old_view[i as int].0 == name@);
                assert forall|l: int| 0 <= l < i implies old_view[l].0 != name@ by {
                    assert(envs@[l].0@ != name@);
                }
                assert(env_has(old_view, name@));
                let c = env_index(old_view, name@);
                assert(0 <= c < old_view.len() && old_view[c].0 == name@ && forall|l: int|
                    0 <= l < c ==> old_view[l].0 != name@);
                if c < i {
                    assert(old_view[c].0 != name@);
                } else if c > i {
                    assert(old_view[i as int].0 != name@);
                }
                assert(c == i);
            }
            let ghost name_view = name@;
            let ghost value_view = value@;
            envs.set(i, (name, value));
            proof {
                assert(env_view(envs@) =~= old_view.update(i as int, (name_view, value_view)));
                assert forall|a: int| 0 <= a < old_view.len() implies env_view(envs@)[a].0
                    == old_view[a].0 by {}
            }
            return;
        }
        i += 1;
    }
    proof {
        assert forall|j: int| 0 <= j < old_view.len() implies old_view[j].0 != name@ by {
            assert(envs@[j].0@ != name@);
        }
    }
    let ghost name_view = name@;
    let ghost value_view = value@;
    envs.push((name, value));
    proof {
        assert(env_view(envs@) =~= old_view.push((name_view, value_view)));
    }
}

} // verus!

verus! {

/// A copy of an optional list of strings.
pub fn clone_opt_strings(o: &Option<Vec<String>>) -> (r: Option<Vec<String>>)
    ensures
        opt_strings_view(r) == opt_strings_view(*o),
{
    match o {
        Some(v) => Some(clone_strings(v)),
        None => None,
    }
}

/// A copy of a list of variables.
pub fn clone_env(v: &Vec<(String, String)>) -> (r: Vec<(String, String)>)
    ensures
        env_view(r@) == env_view(v@),
{
    let mut r: Vec<(String, String)> = Vec::new();
    let mut i: usize = 0;
    while i < v.len()
        invariant
            0 <= i <= v.len(),
            env_view(r@) == env_view(v@).take(i as int),
        decreases v.len() - i,
    {
        let ghost before = r@;
        r.push((v[i].0.clone(), v[i].1.clone()));
        proof {
            assert(env_view(r@) =~= env_view(before).push(env_view(v@)[i as int]));
            assert(env_view(v@).take(i + 1) =~= env_view(v@).take(i as int).push(
                env_view(v@)[i as int],
            ));
        }
        i += 1;
    }
    proof {
        assert(env_view(v@).take(i as int) =~= env_view(v@));
    }
    r
}

/// A copy of an optional list of variables.
pub fn clone_opt_env(o: &Option<Vec<(String, String)>>) -> (r: Option<Vec<(String, String)>>)
    ensures
        opt_env_view(r) == opt_env_view(*o),
{
    match o {
        Some(v) => Some(clone_env(v)),
        None => None,
    }
}

impl Artifact {
    /// A copy of the artifact.
    pub fn clone_artifact(&self) -> (r: Artifact)
        ensures
            r@ == self@,
    {
        Artifact {
            builder: self.builder.clone(),
            source: self.source.clone(),
            destination: self.destination.clone(),
        }
    }
}

/// A copy of an optional list of artifacts.
pub fn clone_opt_artifacts(o: &Option<Vec<Artifact>>) -> (r: Option<Vec<Artifact>>)
    ensures
        opt_artifacts_view(r) == opt_artifacts_view(*o),
{
    match o {
        Some(v) => {
            let ghost views = v@.map_values(|a: Artifact| a@);
            let mut r: Vec<Artifact> = Vec::new();
            let mut i: usize = 0;
            while i < v.len()
                invariant
                    0 <= i <= v.len(),
                    views == v@.map_values(|a: Artifact| a@),
                    r@.map_values(|a: Artifact| a@) == views.take(i as int),
                decreases v.len() - i,
            {
                let ghost before = r@;
                r.push(v[i].clone_artifact());
                proof {
                    assert(r@.map_values(|a: Artifact| a@) =~= before.map_values(|a: Artifact| a@).push(
                        views[i as int],
                    ));
                    assert(views.take(i + 1) =~= views.take(i as int).push(views[i as int]));
                }
                i += 1;
            }
            proof {
                assert(views.take(i as int) =~= views);
            }
            Some(r)
        },
        None => None,
    }
}

/// A copy of an optional root part.
pub fn clone_opt_root(o: &Option<Root>) -> (r: Option<Root>)
    ensures
        opt_root_view(r) == opt_root_view(*o),
{
    match o {
        Some(root) => Some(
            Root { script: clone_opt_strings(&root.script), caches: clone_opt_strings(&root.caches) },
        ),
        None => None,
    }
}

/// A copy of an optional health check.
pub fn clone_opt_healthcheck(o: &Option<Healthcheck>) -> (r: Option<Healthcheck>)
    ensures
        opt_healthcheck_view(r) == opt_healthcheck_view(*o),
{
    match o {
        Some(h) => Some(
            Healthcheck {
                cmd: h.cmd.clone(),
                interval: clone_opt_string(&h.interval),
                timeout: clone_opt_string(&h.timeout),
                start: clone_opt_string(&h.start),
                retries: h.retries,
            },
        ),
        None => None,
    }
}

impl Builder {
    /// A copy of the builder.
    pub fn clone_builder(&self) -> (r: Builder)
        ensures
            r@ == self@,
    {
        Builder {
            image: self.image.clone(),
            user: clone_opt_string(&self.user),
            workdir: clone_opt_string(&self.workdir),
            envs: clone_opt_env(&self.envs),
            artifacts: clone_opt_artifacts(&self.artifacts),
            adds: clone_opt_strings(&self.adds),
            root: clone_opt_root(&self.root),
            script: clone_opt_strings(&self.script),
            caches: clone_opt_strings(&self.caches),
            name: clone_opt_string(&self.name),
        }
    }
}

/// A copy of an optional list of builders.
pub fn clone_opt_builders(o: &Option<Vec<Builder>>) -> (r: Option<Vec<Builder>>)
    ensures
        opt_builders_view(r) == opt_builders_view(*o),
{
    match o {
        Some(v) => {
            let ghost views = v@.map_values(|b: Builder| b@);
            let mut r: Vec<Builder> = Vec::new();
            let mut i: usize = 0;
            while i < v.len()
                invariant
                    0 <= i <= v.len(),
                    views == v@.map_values(|b: Builder| b@),
                    r@.map_values(|b: Builder| b@) == views.take(i as int),
                decreases v.len() - i,
            {
                let ghost before = r@;
                r.push(v[i].clone_builder());
                proof {
                    assert(r@.map_values(|b: Builder| b@) =~= before.map_values(|b: Builder| b@).push(
                        views[i as int],
                    ));
                    assert(views.take(i + 1) =~= views.take(i as int).push(views[i as int]));
                }
                i += 1;
            }
            proof {
                assert(views.take(i as int) =~= views);
            }
            Some(r)
        },
        None => None,
    }
}

/// A copy of an optional list of ports.
pub fn clone_opt_ports(o: &Option<Vec<u16>>) -> (r: Option<Vec<u16>>)
    ensures
        match (r, *o) {
            (Some(a), Some(b)) => a@ == b@,
            (None, None) => true,
            _ => false,
        },
{
    match o {
        Some(v) => {
            let mut r: Vec<u16> = Vec::new();
            let mut i: usize = 0;
            while i < v.len()
                invariant
                    0 <= i <= v.len(),
                    r@ == v@.take(i as int),
                decreases v.len() - i,
            {
                let p: u16 = v[i];
                r.push(p);
                proof {
                    assert(v@.take(i + 1) =~= v@.take(i as int).push(v@[i as int]));
                }
                i += 1;
            }
            proof {
                assert(v@.take(i as int) =~= v@);
            }
            Some(r)
        },
        None => None,
    }
}

impl DofigenImage {
    /// A copy of the descriptor.
    pub fn clone_image(&self) -> (r: DofigenImage)
        ensures
            r@ == self@,
    {
        DofigenImage {
            image: self.image.clone(),
            user: clone_opt_string(&self.user),
            workdir: clone_opt_string(&self.workdir),
            envs: clone_opt_env(&self.envs),
            artifacts: clone_opt_artifacts(&self.artifacts),
            adds: clone_opt_strings(&self.adds),
            root: clone_opt_root(&self.root),
            script: clone_opt_strings(&self.script),
            caches: clone_opt_strings(&self.caches),
            builders: clone_opt_builders(&self.builders),
            context: clone_opt_strings(&self.context),
            ignores: clone_opt_strings(&self.ignores),
            entrypoint: clone_opt_strings(&self.entrypoint),
            cmd: clone_opt_strings(&self.cmd),
            ports: clone_opt_ports(&self.ports),
            healthcheck: clone_opt_healthcheck(&self.healthcheck),
        }
    }
}

} // verus!

verus! {

// The descriptor as Dofigen reads it from JSON.

/// An artifact as Dofigen reads it.
pub open spec fn artifact_json(a: ArtifactView) -> JsonView {
    JsonView::Obj(
        seq![
            ("builder"@, JsonView::Str(a.builder)),
            ("source"@, JsonView::Str(a.source)),
            ("destination"@, JsonView::Str(a.destination)),
        ],
    )
}

/// The artifacts, where there are some.
pub open spec fn opt_artifacts_json(o: Option<Seq<ArtifactView>>) -> Option<JsonView> {
    match o {
        Some(v) => Some(JsonView::Arr(v.map_values(|a: ArtifactView| artifact_json(a)))),
        None => None,
    }
}

/// The root part, as Dofigen reads it.
pub open spec fn root_json(r: RootView) -> JsonView {
    JsonView::Obj(
        opt_entry("script"@, opt_texts_json(r.script)) + opt_entry(
            "caches"@,
            opt_texts_json(r.caches),
        ),
    )
}

/// The entries that a builder and the image have in common.
pub open spec fn stage_entries(
    image: Seq<char>,
    user: Option<Seq<char>>,
    workdir: Option<Seq<char>>,
    envs: Option<Seq<(Seq<char>, Seq<char>)>>,
    artifacts: Option<Seq<ArtifactView>>,
    adds: Option<Seq<Seq<char>>>,
    root: Option<RootView>,
    script: Option<Seq<Seq<char>>>,
    caches: Option<Seq<Seq<char>>>,
) -> Seq<(Seq<char>, JsonView)> {
    stage_head(image, user, workdir, envs) + stage_tail(artifacts, adds, root, script, caches)
}

/// The first common entries: the base image, the user, the working directory
/// and the environment variables.
pub open spec fn stage_head(
    image: Seq<char>,
    user: Option<Seq<char>>,
    workdir: Option<Seq<char>>,
    envs: Option<Seq<(Seq<char>, Seq<char>)>>,
) -> Seq<(Seq<char>, JsonView)> {
    seq![("image"@, JsonView::Str(image))] + opt_entry("user"@, opt_text_json(user)) + opt_entry(
        "workdir"@,
        opt_text_json(workdir),
    ) + opt_entry(
        "envs"@,
        match envs {
            Some(e) => Some(text_pairs_json(e)),
            None => None,
        },
    )
}

/// The last common entries: the artifacts, the added files, the root part,
/// the script and the caches.
pub open spec fn stage_tail(
    artifacts: Option<Seq<ArtifactView>>,
    adds: Option<Seq<Seq<char>>>,
    root: Option<RootView>,
    script: Option<Seq<Seq<char>>>,
    caches: Option<Seq<Seq<char>>>,
) -> Seq<(Seq<char>, JsonView)> {
    opt_entry("artifacts"@, opt_artifacts_json(artifacts)) + opt_entry("adds"@, opt_texts_json(adds))
        + opt_entry(
        "root"@,
        match root {
            Some(r) => Some(root_json(r)),
            None => None,
        },
    ) + opt_entry("script"@, opt_texts_json(script)) + opt_entry("caches"@, opt_texts_json(caches))
}

/// A builder, as Dofigen reads it.
pub open spec fn builder_json(b: BuilderView) -> JsonView {
    JsonView::Obj(
        stage_entries(
            b.image,
            b.user,
            b.workdir,
            b.envs,
            b.artifacts,
            b.adds,
            b.root,
            b.script,
            b.caches,
        ) + opt_entry("name"@, opt_text_json(b.name)),
    )
}

/// The health check, as Dofigen reads it.
pub open spec fn healthcheck_json(h: HealthcheckView) -> JsonView {
    JsonView::Obj(
        seq![("cmd"@, JsonView::Str(h.cmd))] + opt_entry("interval"@, opt_text_json(h.interval))
            + opt_entry("timeout"@, opt_text_json(h.timeout)) + opt_entry(
            "start"@,
            opt_text_json(h.start),
        ) + opt_entry(
            "retries"@,
            match h.retries {
                Some(n) => Some(JsonView::Int(n as u64)),
                None => None,
            },
        ),
    )
}

/// The ports, as numbers.
pub open spec fn ports_json(p: Seq<u16>) -> JsonView {
    JsonView::Arr(p.map_values(|n: u16| JsonView::Int(n as u64)))
}

/// The descriptor, as Dofigen reads it: each field under its name, the absent
/// ones left out.
pub open spec fn dofigen_json(d: DofigenImageView) -> JsonView {
    JsonView::Obj(
        stage_entries(
            d.image,
            d.user,
            d.workdir,
            d.envs,
            d.artifacts,
            d.adds,
            d.root,
            d.script,
            d.caches,
        ) + opt_entry(
            "builders"@,
            match d.builders {
                Some(v) => Some(JsonView::Arr(v.map_values(|b: BuilderView| builder_json(b)))),
                None => None,
            },
        ) + opt_entry("context"@, opt_texts_json(d.context)) + opt_entry(
            "ignores"@,
            opt_texts_json(d.ignores),
        ) + opt_entry("entrypoint"@, opt_texts_json(d.entrypoint)) + opt_entry(
            "cmd"@,
            opt_texts_json(d.cmd),
        ) + opt_entry(
            "ports"@,
            match d.ports {
                Some(p) => Some(ports_json(p)),
                None => None,
            },
        ) + opt_entry(
            "healthcheck"@,
            match d.healthcheck {
                Some(h) => Some(healthcheck_json(h)),
                None => None,
            },
        ),
    )
}

impl Artifact {
    /// The artifact as Dofigen reads it.
    pub fn to_json(&self) -> (r: Json)
        ensures
            r@ == artifact_json(self@),
    {
        let mut e: Vec<(String, Json)> = Vec::new();
        push_entry(&mut e, "builder", Json::Str(self.builder.clone()));
        push_entry(&mut e, "source", Json::Str(self.source.clone()));
        push_entry(&mut e, "destination", Json::Str(self.destination.clone()));
        proof {
            assert(entries_view(e@) =~= artifact_json(self@)->Obj_0);
        }
        object(e)
    }
}

impl Root {
    /// The root part as Dofigen reads it.
    pub fn to_json(&self) -> (r: Json)
        ensures
            r@ == root_json(self@),
    {
        let mut e: Vec<(String, Json)> = Vec::new();
        push_opt_texts(&mut e, "script", &self.script);
        push_opt_texts(&mut e, "caches", &self.caches);
        proof {
            assert(entries_view(e@) =~= root_json(self@)->Obj_0);
        }
        object(e)
    }
}

/// Adds the artifacts after the entries, where there are some.
fn push_opt_artifacts(entries: &mut Vec<(String, Json)>, artifacts: &Option<Vec<Artifact>>)
    ensures
        entries_view(final(entries)@) == entries_view(old(entries)@) + opt_entry(
            "artifacts"@,
            opt_artifacts_json(opt_artifacts_view(*artifacts)),
        ),
{
    match artifacts {
        Some(v) => {
            let mut items: Vec<Json> = Vec::new();
            let mut i: usize = 0;
            while i < v.len()
                invariant
                    0 <= i <= v.len(),
                    items@.len() == i,
                    forall|j: int| 0 <= j < i ==> (#[trigger] items@[j])@ == artifact_json(v@[j]@),
                decreases v.len() - i,
            {
                items.push(v[i].to_json());
                i += 1;
            }
            let arr = Json::Arr(items);
            proof {
                assert(arr@->Arr_0 =~= opt_artifacts_json(opt_artifacts_view(*artifacts))->0->Arr_0);
            }
            push_entry(entries, "artifacts", arr);
        },
        None => {
            proof {
                assert(entries_view(old(entries)@) + Seq::empty() =~= entries_view(old(entries)@));
            }
        },
    }
}

/// Adds the first entries that a builder and the image have in common.
fn push_stage_head(
    entries: &mut Vec<(String, Json)>,
    image: &String,
    user: &Option<String>,
    workdir: &Option<String>,
    envs: &Option<Vec<(String, String)>>,
)
    ensures
        entries_view(final(entries)@) == entries_view(old(entries)@) + stage_head(
            image@,
            opt_string_view(*user),
            opt_string_view(*workdir),
            opt_env_view(*envs),
        ),
{
    let ghost e0 = entries_view(entries@);
    push_entry(entries, "image", Json::Str(image.clone()));
    push_opt_text(entries, "user", user);
    push_opt_text(entries, "workdir", workdir);
    match envs {
        Some(v) => {
            let pairs = text_pairs(v);
            proof {
                assert(pairs_view(v@) =~= env_view(v@));
            }
            push_entry(entries, "envs", pairs);
        },
        None => {
            proof {
                assert(entries_view(entries@) + Seq::empty() =~= entries_view(entries@));
            }
        },
    }
    proof {
        assert(entries_view(entries@) =~= e0 + stage_head(
            image@,
            opt_string_view(*user),
            opt_string_view(*workdir),
            opt_env_view(*envs),
        ));
    }
}

/// Adds the last entries that a builder and the image have in common.
fn push_stage_tail(
    entries: &mut Vec<(String, Json)>,
    artifacts: &Option<Vec<Artifact>>,
    adds: &Option<Vec<String>>,
    root: &Option<Root>,
    script: &Option<Vec<String>>,
    caches: &Option<Vec<String>>,
)
    ensures
        entries_view(final(entries)@) == entries_view(old(entries)@) + stage_tail(
            opt_artifacts_view(*artifacts),
            opt_strings_view(*adds),
            opt_root_view(*root),
            opt_strings_view(*script),
            opt_strings_view(*caches),
        ),
{
    let ghost e0 = entries_view(entries@);
    push_opt_artifacts(entries, artifacts);
    push_opt_texts(entries, "adds", adds);
    match root {
        Some(r) => push_entry(entries, "root", r.to_json()),
        None => {
            proof {
                assert(entries_view(entries@) + Seq::empty() =~= entries_view(entries@));
            }
        },
    }
    push_opt_texts(entries, "script", script);
    push_opt_texts(entries, "caches", caches);
    proof {
        assert(entries_view(entries@) =~= e0 + stage_tail(
            opt_artifacts_view(*artifacts),
            opt_strings_view(*adds),
            opt_root_view(*root),
            opt_strings_view(*script),
            opt_strings_view(*caches),
        ));
    }
}

/// Adds the entries that a builder and the image have in common.
fn push_stage_entries(
    entries: &mut Vec<(String, Json)>,
    image: &String,
    user: &Option<String>,
    workdir: &Option<String>,
    envs: &Option<Vec<(String, String)>>,
    artifacts: &Option<Vec<Artifact>>,
    adds: &Option<Vec<String>>,
    root: &Option<Root>,
    script: &Option<Vec<String>>,
    caches: &Option<Vec<String>>,
)
    ensures
        entries_view(final(entries)@) == entries_view(old(entries)@) + stage_entries(
            image@,
            opt_string_view(*user),
            opt_string_view(*workdir),
            opt_env_view(*envs),
            opt_artifacts_view(*artifacts),
            opt_strings_view(*adds),
            opt_root_view(*root),
            opt_strings_view(*script),
            opt_strings_view(*caches),
        ),
{
    let ghost e0 = entries_view(entries@);
    push_stage_head(entries, image, user, workdir, envs);
    let ghost h = stage_head(image@, opt_string_view(*user), opt_string_view(*workdir), opt_env_view(*envs));
    push_stage_tail(entries, artifacts, adds, root, script, caches);
    let ghost t = stage_tail(
        opt_artifacts_view(*artifacts),
        opt_strings_view(*adds),
        opt_root_view(*root),
        opt_strings_view(*script),
        opt_strings_view(*caches),
    );
    proof {
        assert(entries_view(entries@) =~= e0 + (h + t));
    }
}

impl Healthcheck {
    /// The health check as Dofigen reads it.
    pub fn to_json(&self) -> (r: Json)
        ensures
            r@ == healthcheck_json(self@),
    {
        let mut e: Vec<(String, Json)> = Vec::new();
        push_entry(&mut e, "cmd", Json::Str(self.cmd.clone()));
        push_opt_text(&mut e, "interval", &self.interval);
        push_opt_text(&mut e, "timeout", &self.timeout);
        push_opt_text(&mut e, "start", &self.start);
        match self.retries {
            Some(n) => push_entry(&mut e, "retries", Json::Int(n as u64)),
            None => {
                proof {
                    assert(entries_view(e@) + Seq::empty() =~= entries_view(e@));
                }
            },
        }
        proof {
            assert(entries_view(e@) =~= healthcheck_json(self@)->Obj_0);
        }
        object(e)
    }
}

impl Builder {
    /// The builder as Dofigen reads it.
    pub fn to_json(&self) -> (r: Json)
        ensures
            r@ == builder_json(self@),
    {
        let mut e: Vec<(String, Json)> = Vec::new();
        push_stage_entries(
            &mut e,
            &self.image,
            &self.user,
            &self.workdir,
            &self.envs,
            &self.artifacts,
            &self.adds,
            &self.root,
            &self.script,
            &self.caches,
        );
        push_opt_text(&mut e, "name", &self.name);
        proof {
            assert(entries_view(e@) =~= builder_json(self@)->Obj_0);
        }
        object(e)
    }
}

impl DofigenImage {
    /// The descriptor as Dofigen reads it from JSON.
    pub fn to_json(&self) -> (r: Json)
        ensures
            r@ == dofigen_json(self@),
    {
        let mut e: Vec<(String, Json)> = Vec::new();
        push_stage_entries(
            &mut e,
            &self.image,
            &self.user,
            &self.workdir,
            &self.envs,
            &self.artifacts,
            &self.adds,
            &self.root,
            &self.script,
            &self.caches,
        );
        match &self.builders {
            Some(v) => {
                let mut items: Vec<Json> = Vec::new();
                let mut i: usize = 0;
                while i < v.len()
                    invariant
                        0 <= i <= v.len(),
                        items@.len() == i,
                        forall|j: int| 0 <= j < i ==> (#[trigger] items@[j])@ == builder_json(v@[j]@),
                    decreases v.len() - i,
                {
                    items.push(v[i].to_json());
                    i += 1;
                }
                let arr = Json::Arr(items);
                proof {
                    assert(arr@->Arr_0 =~= v@.map_values(|b: Builder| b@).map_values(
                        |b: BuilderView| builder_json(b),
                    ));
                }
                push_entry(&mut e, "builders", arr);
            },
            None => {
                proof {
                    assert(entries_view(e@) + Seq::empty() =~= entries_view(e@));
                }
            },
        }
        push_opt_texts(&mut e, "context", &self.context);
        push_opt_texts(&mut e, "ignores", &self.ignores);
        push_opt_texts(&mut e, "entrypoint", &self.entrypoint);
        push_opt_texts(&mut e, "cmd", &self.cmd);
        match &self.ports {
            Some(p) => {
                let mut items: Vec<Json> = Vec::new();
                let mut i: usize = 0;
                while i < p.len()
                    invariant
                        0 <= i <= p.len(),
                        items@.len() == i,
                        forall|j: int| 0 <= j < i ==> (#[trigger] items@[j])@ == JsonView::Int(p@[j] as u64),
                    decreases p.len() - i,
                {
                    items.push(Json::Int(p[i] as u64));
                    i += 1;
                }
                let arr = Json::Arr(items);
                proof {
                    assert(arr@->Arr_0 =~= ports_json(p@)->Arr_0);
                }
                push_entry(&mut e, "ports", arr);
            },
            None => {
                proof {
                    assert(entries_view(e@) + Seq::empty() =~= entries_view(e@));
                }
            },
        }
        match &self.healthcheck {
            Some(h) => push_entry(&mut e, "healthcheck", h.to_json()),
            None => {
                proof {
                    assert(entries_view(e@) + Seq::empty() =~= entries_view(e@));
                }
            },
        }
        proof {
            assert(entries_view(e@) =~= dofigen_json(self@)->Obj_0);
        }
        object(e)
    }
}

} // verus!

verus! {

// The builders that the artifacts come from.

/// The name of the builder at that position: its own, else `builder-` and its
/// position.
pub open spec fn builder_name(b: BuilderView, i: int) -> Seq<char> {
    match b.name {
        Some(n) => n,
        None => "builder-"@ + decimal(i as nat),
    }
}

/// The names of the builders before that position.
pub open spec fn names_before(bs: Seq<BuilderView>, k: int) -> Seq<Seq<char>> {
    Seq::new(k as nat, |i: int| builder_name(bs[i], i))
}

/// Each artifact comes from one of the named builders.
pub open spec fn artifacts_from(arts: Option<Seq<ArtifactView>>, names: Seq<Seq<char>>) -> bool {
    match arts {
        Some(v) => forall|j: int| 0 <= j < v.len() ==> names.contains(#[trigger] v[j].builder),
        None => true,
    }
}

/// The builders of a descriptor, none where it has none.
pub open spec fn builders_of(d: DofigenImageView) -> Seq<BuilderView> {
    match d.builders {
        Some(v) => v,
        None => Seq::empty(),
    }
}

/// Each artifact of each stage comes from a builder written before that stage
/// (Dofigen stops on the first one that does not).
pub open spec fn artifacts_resolve(d: DofigenImageView) -> bool {
    let bs = builders_of(d);
    &&& forall|k: int|
        0 <= k < bs.len() ==> artifacts_from(#[trigger] bs[k].artifacts, names_before(bs, k))
    &&& artifacts_from(d.artifacts, names_before(bs, bs.len() as int))
}

/// Whether each artifact comes from one of the named builders.
#[verifier::loop_isolation(false)]
fn artifacts_found(arts: &Option<Vec<Artifact>>, names: &Vec<String>) -> (r: bool)
    ensures
        r == artifacts_from(opt_artifacts_view(*arts), strings_view(names@)),
{
    proof {
        assert(strings_view(names@) =~= names@.map_values(|x: String| x@));
    }
    match arts {
        Some(v) => {
            let mut i: usize = 0;
            while i < v.len()
                invariant
                    0 <= i <= v.len(),
                    forall|j: int|
                        0 <= j < i ==> strings_view(names@).contains(#[trigger] v@[j].builder@),
                decreases v.len() - i,
            {
                if !contains_str(names, v[i].builder.as_str()) {
                    proof {
                        assert(opt_artifacts_view(*arts)->0[i as int].builder == v@[i as int].builder@);
                    }
                    return false;
                }
                i += 1;
            }
            proof {
                assert forall|j: int| 0 <= j < v@.len() implies strings_view(names@).contains(
                    #[trigger] opt_artifacts_view(*arts)->0[j].builder,
                ) by {
                    assert(opt_artifacts_view(*arts)->0[j].builder == v@[j].builder@);
                }
            }
            true
        },
        None => true,
    }
}

impl Builder {
    /// The builder's name at that position: its own, else `builder-` and the
    /// position.
    pub fn stage_name(&self, position: usize) -> (r: String)
        ensures
            r@ == builder_name(self@, position as int),
    {
        match &self.name {
            Some(n) => n.clone(),
            None => {
                let digits = to_decimal(position);
                concat2("builder-", digits.as_str())
            },
        }
    }
}

impl DofigenImage {
    /// Whether each artifact of each stage comes from a builder written before
    /// that stage.
    #[verifier::loop_isolation(false)]
    pub fn artifacts_resolve(&self) -> (r: bool)
        ensures
            r == artifacts_resolve(self@),
    {
        let mut names: Vec<String> = Vec::new();
        match &self.builders {
            Some(bs) => {
                let ghost bv = builders_of(self@);
                proof {
                    assert(bv =~= bs@.map_values(|b: Builder| b@));
                }
                let mut k: usize = 0;
                while k < bs.len()
                    invariant
                        0 <= k <= bs.len(),
                        bv == bs@.map_values(|b: Builder| b@),
                        strings_view(names@) == names_before(bv, k as int),
                        forall|j: int|
                            0 <= j < k ==> artifacts_from(#[trigger] bv[j].artifacts, names_before(bv, j)),
                    decreases bs.len() - k,
                {
                    proof {
                        assert(bv[k as int] == bs@[k as int]@);
                    }
                    if !artifacts_found(&bs[k].artifacts, &names) {
                        proof {
                            assert(!artifacts_from(bv[k as int].artifacts, names_before(bv, k as int)));
                        }
                        return false;
                    }
                    let name = bs[k].stage_name(k);
                    let ghost before = names@;
                    names.push(name);
                    proof {
                        assert(strings_view(names@) =~= strings_view(before).push(
                            builder_name(bv[k as int], k as int),
                        ));
                        assert(strings_view(names@) =~= names_before(bv, k + 1));
                    }
                    k += 1;
                }
            },
            None => {
                proof {
                    assert(strings_view(names@) =~= names_before(builders_of(self@), 0));
                }
            },
        }
        artifacts_found(&self.artifacts, &names)
    }
}

} // verus!

verus! {

// The files that Dofigen writes.

/// Dofigen writes the descriptor: each artifact comes from a builder written
/// before it, and the builders can be counted in an `i32`.
pub open spec fn dofigen_can_write(d: DofigenImageView) -> bool {
    artifacts_resolve(d) && builders_of(d).len() <= i32::MAX
}

/// The Docker ignore file that Dofigen writes from the descriptor read from
/// that JSON text.
pub uninterp spec fn dofigen_dockerignore(json: Seq<char>) -> Seq<char>;

/// Dofigen's message where it cannot read a descriptor from that JSON text.
pub uninterp spec fn dofigen_json_error(json: Seq<char>) -> Seq<char>;

/// The Dockerfile that `generate_dockerfile` writes from the descriptor read
/// from that JSON text, when each stage's environment variables come out in
/// the order of the text.
pub uninterp spec fn dofigen_dockerfile(json: Seq<char>) -> Seq<char>;

/// The two lists of variables are the same but for their order.
pub open spec fn same_envs(
    a: Option<Seq<(Seq<char>, Seq<char>)>>,
    b: Option<Seq<(Seq<char>, Seq<char>)>>,
) -> bool {
    match (a, b) {
        (Some(x), Some(y)) => x.to_multiset() == y.to_multiset(),
        (None, None) => true,
        _ => false,
    }
}

/// The builder is the other one but for the order of its variables.
pub open spec fn builder_envs_reordered(a: BuilderView, b: BuilderView) -> bool {
    same_envs(a.envs, b.envs) && (BuilderView { envs: b.envs, ..a }) == b
}

/// The descriptor `e` is `d` but for the order of each stage's variables.
pub open spec fn envs_reordered(e: DofigenImageView, d: DofigenImageView) -> bool {
    &&& same_envs(e.envs, d.envs)
    &&& (e.builders is Some <==> d.builders is Some)
    &&& builders_of(e).len() == builders_of(d).len()
    &&& forall|i: int|
        0 <= i < builders_of(e).len() ==> builder_envs_reordered(
            #[trigger] builders_of(e)[i],
            builders_of(d)[i],
        )
    &&& (DofigenImageView { envs: d.envs, builders: d.builders, ..e }) == d
}

/// Each stage names each of its variables once.
pub open spec fn envs_distinct(d: DofigenImageView) -> bool {
    &&& (d.envs matches Some(e) ==> distinct_names(e))
    &&& forall|i: int|
        0 <= i < builders_of(d).len() ==> ((#[trigger] builders_of(d)[i]).envs matches Some(e)
            ==> distinct_names(e))
}

/// The text holds that part.
pub open spec fn has_text(t: Seq<char>, part: Seq<char>) -> bool {
    exists|i: int| 0 <= i && i + part.len() <= t.len() && #[trigger] t.subrange(i, i + part.len()) == part
}

/// What the Dockerfiles that Dofigen writes start with.
pub const DOFIGEN_HEADER: &'static str = "# This file is generated by Dofigen v1.4.1\n# https://github.com/lenra-io/dofigen\n\n# syntax=docker/dockerfile:1.4\n";

/// The line that starts a stage of that image under that name.
pub open spec fn stage_line(image: Seq<char>, name: Seq<char>) -> Seq<char> {
    "FROM "@ + image + " AS "@ + name + "\n"@
}

/// The line that sets a variable under `ENV`.
pub open spec fn env_line(name: Seq<char>, value: Seq<char>) -> Seq<char> {
    "    "@ + name + "=\""@ + value + "\""@
}

/// Each variable of the list has its line in the text.
pub open spec fn env_lines_in(t: Seq<char>, envs: Option<Seq<(Seq<char>, Seq<char>)>>) -> bool {
    envs matches Some(e) ==> (forall|j: int|
        0 <= j < e.len() ==> has_text(t, env_line(#[trigger] e[j].0, e[j].1)))
}

/// What every Dockerfile that Dofigen writes from the descriptor shows: the
/// header; a `FROM` line for each builder, under its name, and for the image,
/// as `runtime`; an `EXPOSE` line for each port; and, where each stage names
/// each variable once, a line for each variable.
pub open spec fn dockerfile_shows(t: Seq<char>, d: DofigenImageView) -> bool {
    let bs = builders_of(d);
    &&& t.len() >= DOFIGEN_HEADER@.len()
    &&& t.take(DOFIGEN_HEADER@.len() as int) == DOFIGEN_HEADER@
    &&& forall|i: int|
        0 <= i < bs.len() ==> has_text(t, stage_line(#[trigger] bs[i].image, builder_name(bs[i], i)))
    &&& has_text(t, stage_line(d.image, "runtime"@))
    &&& (d.ports matches Some(p) ==> (forall|j: int|
        0 <= j < p.len() ==> has_text(t, "EXPOSE "@ + decimal(#[trigger] p[j] as nat) + "\n"@)))
    &&& envs_distinct(d) ==> {
        &&& env_lines_in(t, d.envs)
        &&& forall|i: int| 0 <= i < bs.len() ==> env_lines_in(t, (#[trigger] bs[i]).envs)
    }
}

/// `dofigen_lib::from_json` reads the descriptor from its JSON text, then
/// `generate_dockerfile` and `generate_dockerignore` write the Dockerfile and
/// the Docker ignore file from it. The Docker ignore file and the message of a
/// refused text are functions of the text. The Dockerfile writes each stage's
/// environment variables in the order of a hash map that each process seeds
/// at random: where each stage names each variable once, it is the Dockerfile
/// written with them in some order; whatever the order, it starts with the
/// header and holds the stages' `FROM` lines, the `EXPOSE` lines and the
/// variables' lines. `generate_dockerfile` panics where an artifact comes
/// from no builder written before it, which `requires` leaves out.
#[verifier::external_body]
fn dofigen_files(json: &str) -> (r: Result<(String, String), String>)
    requires
        exists|d: DofigenImageView| #[trigger] json_text(dofigen_json(d)) == json@ && dofigen_can_write(d),
    ensures
        r matches Ok((_, ignore)) ==> ignore@ == dofigen_dockerignore(json@),
        r matches Ok((dockerfile, _)) ==> forall|d: DofigenImageView|
            #[trigger] json_text(dofigen_json(d)) == json@ ==> dockerfile_shows(dockerfile@, d),
        r matches Ok((dockerfile, _)) ==> forall|d: DofigenImageView|
            #[trigger] json_text(dofigen_json(d)) == json@ && envs_distinct(d) ==> exists|
                e: DofigenImageView,
            |
                envs_reordered(e, d) && dockerfile@ == #[trigger] dofigen_dockerfile(
                    json_text(dofigen_json(e)),
                ),
        r matches Err(m) ==> m@ == dofigen_json_error(json@),
{
    let image = dofigen_lib::from_json(json.to_string()).map_err(|e| e.to_string())?;
    Ok((dofigen_lib::generate_dockerfile(&image), dofigen_lib::generate_dockerignore(&image)))
}

/// What the Dockerfile that Dofigen writes from the descriptor is: the header,
/// the stages' `FROM` lines, the `EXPOSE` lines and the variables' lines
/// whatever the order of the variables; and, where each stage names each
/// variable once, the Dockerfile written with each stage's variables in some
/// order.
pub open spec fn dofigen_dockerfile_is(t: Seq<char>, d: DofigenImageView) -> bool {
    &&& dockerfile_shows(t, d)
    &&& envs_distinct(d) ==> exists|e: DofigenImageView|
        envs_reordered(e, d) && t == #[trigger] dofigen_dockerfile(json_text(dofigen_json(e)))
}

impl DofigenImage {
    /// Whether Dofigen writes the descriptor: each artifact comes from a builder
    /// written before it, and the builders can be counted in an `i32`.
    pub fn can_write(&self) -> (r: bool)
        ensures
            r == dofigen_can_write(self@),
    {
        let few = match &self.builders {
            Some(bs) => bs.len() <= 2147483647,
            None => true,
        };
        few && self.artifacts_resolve()
    }

    /// The Dockerfile and the Docker ignore file that Dofigen writes from the
    /// descriptor, which it reads from the descriptor's JSON text.
    pub fn docker_files(&self) -> (r: Result<(String, String), Error>)
        requires
            dofigen_can_write(self@),
        ensures
            r matches Ok((dockerfile, _)) ==> dofigen_dockerfile_is(dockerfile@, self@),
            r matches Ok((_, ignore)) ==> ignore@ == dofigen_dockerignore(
                json_text(dofigen_json(self@)),
            ),
            r matches Err(e) ==> e matches Error::Dofigen(m) && m@ == dofigen_json_error(
                json_text(dofigen_json(self@)),
            ),
    {
        let json = self.to_json().to_text();
        match dofigen_files(json.as_str()) {
            Ok(files) => Ok(files),
            Err(m) => Err(Error::Dofigen(m)),
        }
    }
}

} // verus!

