//! The check of a running app against its manifest: each of its routes is
//! asked for its view, whose answer is checked against the view schema.

use vstd::prelude::*;
use vstd::string::*;

use crate::config::strings_view;
use crate::errors::Error;
use crate::matching::{array0, object0, object3, text_value, Value, ValueView};
use crate::text::{concat2, concat3, owned};


pub use crate::cli::check::rules::CheckerLevel;

verus! {

/// The manifest of an app.
#[derive(Debug)]
pub struct Manifest {
    pub manifest: ManifestContent,
}

/// What a manifest holds: a root view, or routes.
#[derive(Debug)]
pub enum ManifestContent {
    RootView(RootView),
    RoutesDefinition(RoutesDefinition),
}

/// The view at the root of the app.
#[derive(Debug)]
pub struct RootView {
    pub root_view: String,
}

/// The routes of the app, by kind of client.
#[derive(Debug)]
pub struct RoutesDefinition {
    pub lenra_routes: Option<Vec<LenraRoute>>,
    pub json_routes: Option<Vec<JsonRoute>>,
}

/// A route of the Lenra client: a path and the view component it shows.
#[derive(Debug)]
pub struct LenraRoute {
    pub path: String,
    pub view: ViewComponent,
}

/// A route of the JSON client: a path and the view it answers with.
#[derive(Debug)]
pub struct JsonRoute {
    pub path: String,
    pub view: String,
}

/// A view with its properties.
#[derive(Debug)]
pub struct ViewComponent {
    pub name: String,
    pub props: Option<Value>,
}

/// A route of the app.
pub trait Route {
    /// The route's path.
    fn path(&self) -> &str;

    /// The name of the view the route shows.
    fn view(&self) -> &str;

    /// The properties given to the view.
    fn props(&self) -> Value;
}

impl Route for RootView {
    /// The root path.
    fn path(&self) -> (r: &str)
        ensures
            r@ == "/"@,
    {
        "/"
    }

    /// The root view.
    fn view(&self) -> (r: &str)
        ensures
            r@ == self.root_view@,
    {
        self.root_view.as_str()
    }

    /// No properties.
    fn props(&self) -> (r: Value)
        ensures
            r@ == ValueView::Object(Seq::empty()),
    {
        object0()
    }
}

impl Route for LenraRoute {
    /// The route's path.
    fn path(&self) -> (r: &str)
        ensures
            r@ == self.path@,
    {
        self.path.as_str()
    }

    /// The name of the view component.
    fn view(&self) -> (r: &str)
        ensures
            r@ == self.view.name@,
    {
        self.view.name.as_str()
    }

    /// The view component's properties, none where it has none.
    fn props(&self) -> (r: Value)
        ensures
            r@ == component_props(self.view),
    {
        match &self.view.props {
            Some(p) => p.clone_value(),
            None => object0(),
        }
    }
}

impl Route for JsonRoute {
    /// The route's path.
    fn path(&self) -> (r: &str)
        ensures
            r@ == self.path@,
    {
        self.path.as_str()
    }

    /// The view.
    fn view(&self) -> (r: &str)
        ensures
            r@ == self.view@,
    {
        self.view.as_str()
    }

    /// No properties.
    fn props(&self) -> (r: Value)
        ensures
            r@ == ValueView::Object(Seq::empty()),
    {
        object0()
    }
}

/// The properties of a view component: an empty object where it has none.
pub open spec fn component_props(c: ViewComponent) -> ValueView {
    match c.props {
        Some(p) => p@,
        None => ValueView::Object(Seq::empty()),
    }
}

/// The request that asks the app for a view: no data, the properties, and
/// the view's name (in the order of a JSON map).
pub open spec fn view_request(view: Seq<char>, props: ValueView) -> ValueView {
    ValueView::Object(
        seq![
            ("data"@, ValueView::Array(Seq::empty())),
            ("props"@, props),
            ("view"@, ValueView::String(view)),
        ],
    )
}

/// The request that asks the app for a view with its properties.
pub fn view_request_value(view: &str, props: Value) -> (r: Value)
    ensures
        r@ == view_request(view@, props@),
{
    object3("data", array0(), "props", props, "view", text_value(view))
}

/// The requests of the routes of the Lenra client.
pub open spec fn lenra_requests(routes: Seq<LenraRoute>) -> Seq<ValueView> {
    routes.map_values(|r: LenraRoute| view_request(r.view.name@, component_props(r.view)))
}

/// The requests of the routes of the JSON client.
pub open spec fn json_requests(routes: Seq<JsonRoute>) -> Seq<ValueView> {
    routes.map_values(|r: JsonRoute| view_request(r.view@, ValueView::Object(Seq::empty())))
}

/// The requests that check an app: that of the root view, or those of the
/// Lenra routes then of the JSON routes.
pub open spec fn manifest_requests(m: Manifest) -> Seq<ValueView> {
    match m.manifest {
        ManifestContent::RootView(root) => seq![
            view_request(root.root_view@, ValueView::Object(Seq::empty())),
        ],
        ManifestContent::RoutesDefinition(def) => lenra_part(def) + json_part(def),
    }
}

/// The requests of the Lenra routes, if any.
pub open spec fn lenra_part(def: RoutesDefinition) -> Seq<ValueView> {
    match def.lenra_routes {
        Some(routes) => lenra_requests(routes@),
        None => Seq::empty(),
    }
}

/// The requests of the JSON routes, if any.
pub open spec fn json_part(def: RoutesDefinition) -> Seq<ValueView> {
    match def.json_routes {
        Some(routes) => json_requests(routes@),
        None => Seq::empty(),
    }
}

/// The views of a list of values.
pub open spec fn values_view(v: Seq<Value>) -> Seq<ValueView> {
    v.map_values(|x: Value| x@)
}

impl Manifest {
    /// The requests that check the app, each answered with a view to check.
    pub fn check_requests(&self) -> (r: Vec<Value>)
        ensures
            values_view(r@) == manifest_requests(*self),
    {
        match &self.manifest {
            ManifestContent::RootView(root) => {
                let r = vec![view_request_value(root.view(), root.props())];
                proof {
                    assert(values_view(r@) =~= manifest_requests(*self));
                }
                r
            },
            ManifestContent::RoutesDefinition(def) => {
                let mut r: Vec<Value> = Vec::new();
                let ghost lenra = lenra_part(*def);
                if let Some(routes) = &def.lenra_routes {
                    let mut i: usize = 0;
                    while i < routes.len()
                        invariant
                            0 <= i <= routes.len(),
                            values_view(r@) == lenra_requests(routes@).take(i as int),
                        decreases routes.len() - i,
                    {
                        let ghost before = r@;
                        let route = &routes[i];
                        r.push(view_request_value(route.view(), route.props()));
                        proof {
                            assert(values_view(r@) =~= values_view(before).push(
                                lenra_requests(routes@)[i as int],
                            ));
                            assert(lenra_requests(routes@).take(i + 1) =~= lenra_requests(
                                routes@,
                            ).take(i as int).push(lenra_requests(routes@)[i as int]));
                        }
                        i += 1;
                    }
                    proof {
                        assert(lenra_requests(routes@).take(i as int) =~= lenra_requests(routes@));
                    }
                } else {
                    proof {
                        assert(values_view(r@) =~= Seq::<ValueView>::empty());
                    }
                }
                if let Some(routes) = &def.json_routes {
                    let mut i: usize = 0;
                    proof {
                        assert(lenra + json_requests(routes@).take(0) =~= lenra);
                    }
                    while i < routes.len()
                        invariant
                            0 <= i <= routes.len(),
                            values_view(r@) == lenra + json_requests(routes@).take(i as int),
                        decreases routes.len() - i,
                    {
                        let ghost before = r@;
                        let route = &routes[i];
                        r.push(view_request_value(route.view(), route.props()));
                        proof {
                            assert(values_view(r@) =~= values_view(before).push(
                                json_requests(routes@)[i as int],
                            ));
                            assert(json_requests(routes@).take(i + 1) =~= json_requests(
                                routes@,
                            ).take(i as int).push(json_requests(routes@)[i as int]));
                        }
                        i += 1;
                    }
                    proof {
                        assert(json_requests(routes@).take(i as int) =~= json_requests(routes@));
                    }
                } else {
                    proof {
                        assert(lenra + Seq::<ValueView>::empty() =~= lenra);
                    }
                }
                r
            },
        }
    }
}

/// The name of the schema that the app's manifest is checked against.
pub const MANIFEST_SCHEMA: &'static str = "manifest";

/// The name of the schema that the app's views are checked against.
pub const VIEW_RESULT_SCHEMA: &'static str = "view_result";

/// The file of the schema of that name.
pub fn schema_file(name: &str) -> (r: String)
    ensures
        r@ == "./schemas/"@ + name@ + ".json"@,
{
    concat3("./schemas/", name, ".json")
}

/// What the check of an answer against a JSON schema (draft 7) found.
#[derive(Debug)]
pub enum SchemaCheck {
    /// The schema is no JSON text: the parser's message.
    SchemaNotJson(String),
    /// The schema does not compile: the compiler's message.
    NotCompiled(String),
    /// The answer is no JSON text: the parser's message.
    AnswerNotJson(String),
    /// The answer was validated: the errors found, none where it is valid.
    Checked(Vec<String>),
}

/// The mathematical model of a [`SchemaCheck`].
pub enum SchemaCheckView {
    SchemaNotJson(Seq<char>),
    NotCompiled(Seq<char>),
    AnswerNotJson(Seq<char>),
    Checked(Seq<Seq<char>>),
}

impl View for SchemaCheck {
    type V = SchemaCheckView;

    open spec fn view(&self) -> SchemaCheckView {
        match self {
            SchemaCheck::SchemaNotJson(m) => SchemaCheckView::SchemaNotJson(m@),
            SchemaCheck::NotCompiled(m) => SchemaCheckView::NotCompiled(m@),
            SchemaCheck::AnswerNotJson(m) => SchemaCheckView::AnswerNotJson(m@),
            SchemaCheck::Checked(v) => SchemaCheckView::Checked(strings_view(v@)),
        }
    }
}

/// What the check of the answer's JSON text against the schema's JSON text
/// finds.
pub uninterp spec fn schema_check(schema: Seq<char>, answer: Seq<char>) -> SchemaCheckView;

/// `serde_json::from_str` reads the schema, `jsonschema` compiles it as a
/// draft 7 schema, `serde_json::from_str` reads the answer, and the compiled
/// schema validates it, each error written by its `Display`: what comes out
/// is a function of the two texts.
#[verifier::external_body]
fn check_with_schema(schema: &str, answer: &str) -> (r: SchemaCheck)
    ensures
        r@ == schema_check(schema@, answer@),
{
    let schema: serde_json::Value = match serde_json::from_str(schema) {
        Ok(v) => v,
        Err(e) => return SchemaCheck::SchemaNotJson(e.to_string()),
    };
    let compiled = match jsonschema::JSONSchema::options().with_draft(jsonschema::Draft::Draft7).compile(&schema) {
        Ok(c) => c,
        Err(e) => return SchemaCheck::NotCompiled(e.to_string()),
    };
    let answer: serde_json::Value = match serde_json::from_str(answer) {
        Ok(v) => v,
        Err(e) => return SchemaCheck::AnswerNotJson(e.to_string()),
    };
    SchemaCheck::Checked(compiled.validate(&answer).err().map_or(Vec::new(), |es| es.map(|e| e.to_string()).collect()))
}

/// The lines shown for the errors of a validation: none where there is none,
/// else `Validation failed.` and then each error after `error: `.
pub open spec fn validation_lines(errors: Seq<Seq<char>>) -> Seq<Seq<char>> {
    if errors.len() == 0 {
        Seq::empty()
    } else {
        seq!["Validation failed."@] + errors.map_values(|e: Seq<char>| "error: "@ + e)
    }
}

/// The message of a schema that does not compile, with the schema's path
/// between double quotes.
pub open spec fn not_compiled_message(schema_path: Seq<char>, message: Seq<char>) -> Seq<char> {
    "Error while compiling the schema[\""@ + schema_path + "\"]: "@ + message
}

/// What the check of an answer against the schema of that file amounts to:
/// the lines to show, or the error that stops the check.
pub open spec fn schema_report_is(schema_path: Seq<char>, c: SchemaCheckView, r: Result<Vec<String>, Error>) -> bool {
    match c {
        SchemaCheckView::SchemaNotJson(m) => r matches Err(Error::DeserializeJson(t)) && t@ == m,
        SchemaCheckView::NotCompiled(m) => r matches Err(Error::Custom(t)) && t@
            == not_compiled_message(schema_path, m),
        SchemaCheckView::AnswerNotJson(m) => r matches Err(Error::Stdio(t)) && t@
            == "Failed to read JSON: "@ + m,
        SchemaCheckView::Checked(errors) => r matches Ok(lines) && strings_view(lines@)
            == validation_lines(errors),
    }
}

/// The lines to show for the check of an answer against the schema of that
/// file, or the error that stops the check.
pub fn schema_report(schema_path: &str, outcome: SchemaCheck) -> (r: Result<Vec<String>, Error>)
    ensures
        schema_report_is(schema_path@, outcome@, r),
{
    match outcome {
        SchemaCheck::SchemaNotJson(m) => Err(Error::DeserializeJson(m)),
        SchemaCheck::NotCompiled(m) => {
            let mut t = concat3("Error while compiling the schema[\"", schema_path, "\"]: ");
            t.append(m.as_str());
            Err(Error::Custom(t))
        },
        SchemaCheck::AnswerNotJson(m) => Err(Error::Stdio(concat2("Failed to read JSON: ", m.as_str()))),
        SchemaCheck::Checked(errors) => {
            let mut lines: Vec<String> = Vec::new();
            if errors.len() > 0 {
                lines.push(owned("Validation failed."));
                let mut i: usize = 0;
                while i < errors.len()
                    invariant
                        0 <= i <= errors.len(),
                        errors.len() > 0,
                        lines@.len() == i + 1,
                        lines@[0]@ == "Validation failed."@,
                        forall|j: int| 0 <= j < i ==> (#[trigger] lines@[j + 1])@ == "error: "@ + errors@[j]@,
                    decreases errors.len() - i,
                {
                    lines.push(concat2("error: ", errors[i].as_str()));
                    i += 1;
                }
                proof {
                    let ev = strings_view(errors@);
                    assert(strings_view(lines@) =~= validation_lines(ev)) by {
                        assert forall|j: int| 0 <= j < lines@.len() implies #[trigger] strings_view(lines@)[j]
                            == validation_lines(ev)[j] by {
                            if j > 0 {
                                assert(lines@[(j - 1) + 1]@ == "error: "@ + errors@[j - 1]@);
                            }
                        }
                    }
                }
            } else {
                proof {
                    assert(strings_view(lines@) =~= validation_lines(strings_view(errors@)));
                }
            }
            Ok(lines)
        },
    }
}

/// Checks the answer's JSON text against the schema's JSON text, read from
/// that file: the lines to show, or the error that stops the check.
pub fn check_answer(schema_path: &str, schema: &str, answer: &str) -> (r: Result<Vec<String>, Error>)
    ensures
        schema_report_is(schema_path@, schema_check(schema@, answer@), r),
{
    schema_report(schema_path, check_with_schema(schema, answer))
}

} // verus!
