//! The checks of an app made from the Lenra template: its manifest, and the
//! main and menu widgets it answers with.
//!
//! The objects list their keys in the order of a JSON map: sorted.

use vstd::prelude::*;
use vstd::string::*;

use crate::cli::check::rules::{AppChecker, ValueChecker, RULE_SEPARATOR, WIDGET};
use crate::matching::{
    array2, int_value, int_view, obj, object0, object1, object2, object3, object4, object6, text,
    text_value, Value, ValueView,
};
use crate::text::{concat3, owned};

verus! {

/// The checkers of an app made from the template.
#[derive(Debug)]
pub struct TemplateChecker;

// The checks.

/// The request that asks the app for a widget.
pub open spec fn widget_request(widget: Seq<char>) -> ValueView {
    obj(
        seq![
            ("context"@, obj(Seq::empty())),
            ("data"@, obj(Seq::empty())),
            ("props"@, obj(Seq::empty())),
            ("widget"@, text(widget)),
        ],
    )
}

/// The manifest of the template.
pub open spec fn manifest_expected() -> ValueView {
    obj(seq![("manifest"@, obj(seq![("rootWidget"@, text("main"@))]))])
}

/// A reference to a widget in another one.
pub open spec fn widget_ref(name: Seq<char>) -> ValueView {
    obj(seq![("name"@, text(name)), ("type"@, text("widget"@))])
}

/// The main widget of the template: the menu, then the home.
pub open spec fn main_expected() -> ValueView {
    obj(
        seq![
            ("children"@, ValueView::Array(seq![widget_ref("menu"@), widget_ref("home"@)])),
            ("crossAxisAlignment"@, text("center"@)),
            ("direction"@, text("vertical"@)),
            ("scroll"@, ValueView::Bool(true)),
            ("spacing"@, int_view(4, 0x4010000000000000)),
            ("type"@, text("flex"@)),
        ],
    )
}

/// The logo in the menu.
pub open spec fn menu_logo() -> ValueView {
    obj(
        seq![
            ("child"@, obj(seq![("src"@, text("logo.png"@)), ("type"@, text("image"@))])),
            (
                "constraints"@,
                obj(
                    seq![
                        ("maxHeight"@, int_view(32, 0x4040000000000000)),
                        ("maxWidth"@, int_view(32, 0x4040000000000000)),
                        ("minHeight"@, int_view(32, 0x4040000000000000)),
                        ("minWidth"@, int_view(32, 0x4040000000000000)),
                    ],
                ),
            ),
            ("type"@, text("container"@)),
        ],
    )
}

/// The title in the menu.
pub open spec fn menu_title() -> ValueView {
    let title = obj(
        seq![
            (
                "style"@,
                obj(
                    seq![
                        ("fontSize"@, int_view(24, 0x4038000000000000)),
                        ("fontWeight"@, text("bold"@)),
                    ],
                ),
            ),
            ("textAlign"@, text("center"@)),
            ("type"@, text("text"@)),
            ("value"@, text("Hello World"@)),
        ],
    );
    obj(
        seq![
            ("child"@, obj(seq![("child"@, title), ("type"@, text("container"@))])),
            ("type"@, text("flexible"@)),
        ],
    )
}

/// The menu widget of the template: a white bar with a shadow, holding the
/// logo and the title.
pub open spec fn menu_expected() -> ValueView {
    let bar = obj(
        seq![
            ("children"@, ValueView::Array(seq![menu_logo(), menu_title()])),
            ("crossAxisAlignment"@, text("center"@)),
            ("fillParent"@, ValueView::Bool(true)),
            ("mainAxisAlignment"@, text("spaceBetween"@)),
            (
                "padding"@,
                obj(
                    seq![
                        ("bottom"@, int_view(0, 0)),
                        ("left"@, int_view(0, 0)),
                        ("right"@, int_view(32, 0x4040000000000000)),
                        ("top"@, int_view(0, 0)),
                    ],
                ),
            ),
            ("type"@, text("flex"@)),
        ],
    );
    let shadow = obj(
        seq![
            ("blurRadius"@, int_view(8, 0x4020000000000000)),
            ("color"@, int_view(0x1A000000, 0x41ba000000000000)),
            (
                "offset"@,
                obj(
                    seq![("dx"@, int_view(0, 0)), ("dy"@, int_view(1, 0x3ff0000000000000))],
                ),
            ),
        ],
    );
    obj(
        seq![
            ("child"@, bar),
            (
                "decoration"@,
                obj(
                    seq![
                        ("boxShadow"@, shadow),
                        ("color"@, int_view(0xFFFFFFFF, 0x41efffffffe00000)),
                    ],
                ),
            ),
            (
                "padding"@,
                obj(
                    seq![
                        ("bottom"@, int_view(16, 0x4030000000000000)),
                        ("left"@, int_view(32, 0x4040000000000000)),
                        ("right"@, int_view(32, 0x4040000000000000)),
                        ("top"@, int_view(16, 0x4030000000000000)),
                    ],
                ),
            ),
            ("type"@, text("container"@)),
        ],
    )
}

fn widget_request_value(widget: &str) -> (r: Value)
    ensures
        r@ == widget_request(widget@),
{
    object4("context", object0(), "data", object0(), "props", object0(), "widget", text_value(widget))
}

fn widget_ref_value(name: &str) -> (r: Value)
    ensures
        r@ == widget_ref(name@),
{
    object2("name", text_value(name), "type", text_value("widget"))
}

fn main_expected_value() -> (r: Value)
    ensures
        r@ == main_expected(),
{
    object6(
        "children",
        array2(widget_ref_value("menu"), widget_ref_value("home")),
        "crossAxisAlignment",
        text_value("center"),
        "direction",
        text_value("vertical"),
        "scroll",
        Value::Bool(true),
        "spacing",
        int_value(4, 0x4010000000000000),
        "type",
        text_value("flex"),
    )
}

fn menu_logo_value() -> (r: Value)
    ensures
        r@ == menu_logo(),
{
    object3(
        "child",
        object2("src", text_value("logo.png"), "type", text_value("image")),
        "constraints",
        object4(
            "maxHeight",
            int_value(32, 0x4040000000000000),
            "maxWidth",
            int_value(32, 0x4040000000000000),
            "minHeight",
            int_value(32, 0x4040000000000000),
            "minWidth",
            int_value(32, 0x4040000000000000),
        ),
        "type",
        text_value("container"),
    )
}

fn menu_title_value() -> (r: Value)
    ensures
        r@ == menu_title(),
{
    let title = object4(
        "style",
        object2(
            "fontSize",
            int_value(24, 0x4038000000000000),
            "fontWeight",
            text_value("bold"),
        ),
        "textAlign",
        text_value("center"),
        "type",
        text_value("text"),
        "value",
        text_value("Hello World"),
    );
    object2(
        "child",
        object2("child", title, "type", text_value("container")),
        "type",
        text_value("flexible"),
    )
}

fn menu_expected_value() -> (r: Value)
    ensures
        r@ == menu_expected(),
{
    let bar = object6(
        "children",
        array2(menu_logo_value(), menu_title_value()),
        "crossAxisAlignment",
        text_value("center"),
        "fillParent",
        Value::Bool(true),
        "mainAxisAlignment",
        text_value("spaceBetween"),
        "padding",
        object4(
            "bottom",
            int_value(0, 0),
            "left",
            int_value(0, 0),
            "right",
            int_value(32, 0x4040000000000000),
            "top",
            int_value(0, 0),
        ),
        "type",
        text_value("flex"),
    );
    let shadow = object3(
        "blurRadius",
        int_value(8, 0x4020000000000000),
        "color",
        int_value(0x1A000000, 0x41ba000000000000),
        "offset",
        object2("dx", int_value(0, 0), "dy", int_value(1, 0x3ff0000000000000)),
    );
    object4(
        "child",
        bar,
        "decoration",
        object2("boxShadow", shadow, "color", int_value(0xFFFFFFFF, 0x41efffffffe00000)),
        "padding",
        object4(
            "bottom",
            int_value(16, 0x4030000000000000),
            "left",
            int_value(32, 0x4040000000000000),
            "right",
            int_value(32, 0x4040000000000000),
            "top",
            int_value(16, 0x4030000000000000),
        ),
        "type",
        text_value("container"),
    )
}

impl AppChecker for TemplateChecker {
    /// The checkers: the manifest, then the main widget, then the menu widget.
    fn check_list(&self) -> (r: Vec<ValueChecker>)
        ensures
            r@.len() == 3,
            r@[0].name@ == "manifest"@,
            r@[0].request@ == obj(Seq::empty()),
            r@[0].expected@ == manifest_expected(),
            r@[1].name@ == WIDGET@ + RULE_SEPARATOR@ + "main"@,
            r@[1].request@ == widget_request("main"@),
            r@[1].expected@ == main_expected(),
            r@[2].name@ == WIDGET@ + RULE_SEPARATOR@ + "menu"@,
            r@[2].request@ == widget_request("menu"@),
            r@[2].expected@ == menu_expected(),
    {
        let manifest = ValueChecker {
            name: owned("manifest"),
            request: object0(),
            expected: object1("manifest", object1("rootWidget", text_value("main"))),
        };
        let main = ValueChecker {
            name: concat3(WIDGET, RULE_SEPARATOR, "main"),
            request: widget_request_value("main"),
            expected: main_expected_value(),
        };
        let menu = ValueChecker {
            name: concat3(WIDGET, RULE_SEPARATOR, "menu"),
            request: widget_request_value("menu"),
            expected: menu_expected_value(),
        };
        vec![manifest, main, menu]
    }
}

} // verus!

verus! {

/// The template's checkers have distinct names, so that each can be asked for
/// or ignored on its own.
pub proof fn lemma_template_checker_names_distinct()
    ensures
        "manifest"@ != WIDGET@ + RULE_SEPARATOR@ + "main"@,
        "manifest"@ != WIDGET@ + RULE_SEPARATOR@ + "menu"@,
        WIDGET@ + RULE_SEPARATOR@ + "main"@ != WIDGET@ + RULE_SEPARATOR@ + "menu"@,
{
    reveal_strlit("manifest");
    reveal_strlit("widget");
    reveal_strlit(":");
    reveal_strlit("main");
    reveal_strlit("menu");
    let main = WIDGET@ + RULE_SEPARATOR@ + "main"@;
    let menu = WIDGET@ + RULE_SEPARATOR@ + "menu"@;
    assert(main.len() == 11);
    assert(menu.len() == 11);
    assert(main[8] == 'a');
    assert(menu[8] == 'e');
}

} // verus!
