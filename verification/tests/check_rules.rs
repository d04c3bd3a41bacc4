use lenra_cli::cli::check::rules::{
    check_checkers, check_outcome, checker_level, checker_title, error_text, fails, ignore_rule, AppChecker,
    CheckParameters, CheckerLevel, LevelColor, RuleError, RuleErrorLevel, ValueChecker,
};
use lenra_cli::cli::check::template::TemplateChecker;
use lenra_cli::errors::Error;
use lenra_cli::matching::{int_value, object0, object1, object2, text_value, Value};

fn strings(v: &[&str]) -> Vec<String> {
    v.iter().map(|s| s.to_string()).collect()
}

fn checker(name: &str, expected: Value) -> ValueChecker {
    ValueChecker { name: name.to_string(), request: object0(), expected }
}

#[test]
fn ignore_rule_prefixes() {
    let parts = strings(&["widget", "main", "sameValue", "type"]);
    assert!(!ignore_rule(&parts, &vec![]));
    assert!(ignore_rule(&parts, &strings(&["widget:main"])));
    assert!(ignore_rule(&parts, &strings(&["widget:*"])));
    assert!(ignore_rule(&parts, &strings(&["widget:main:sameValue:type"])));
    assert!(!ignore_rule(&parts, &strings(&["widget:menu", "main", "widget:main:*:type"])));
    assert!(!ignore_rule(&parts, &strings(&["*"])));
}

#[test]
fn checker_reports_differences() {
    let expected = object2("rootWidget", text_value("main"), "version", int_value(1, 0x3ff0000000000000));
    let answer = object2("rootWidget", text_value("home"), "extra", Value::Bool(true));
    let c = checker("manifest", expected);
    let errors = c.check(&Ok(answer), &vec![]);
    let rules: Vec<&str> = errors.iter().map(|e| e.rule.as_str()).collect();
    assert_eq!(
        rules,
        vec![
            "manifest:sameValue:rootWidget",
            "manifest:missingProperty:version",
            "manifest:additionalProperty:extra",
        ]
    );
    assert_eq!(
        errors[0].message,
        "Not matching value for rootWidget: got \"home\" but expected \"main\""
    );
    assert_eq!(errors[1].message, "Missing property version");
    assert_eq!(errors[2].message, "Additional property extra");
    assert_eq!(errors[2].level, RuleErrorLevel::Warning);
    assert_eq!(checker_level(&errors), CheckerLevel::Error);
}

#[test]
fn checker_reports_type_differences() {
    let c = checker("manifest", object1("a", int_value(4, 0x4010000000000000)));
    let errors = c.check(&Ok(object1("a", text_value("4"))), &vec![]);
    assert_eq!(errors.len(), 1);
    assert_eq!(errors[0].rule, "manifest:sameType:a");
    assert_eq!(errors[0].message, "Not matching type for a: got string but expected number");
}

#[test]
fn checker_ignores() {
    let expected = object2("a", text_value("x"), "b", text_value("y"));
    let answer = object1("a", text_value("z\n"));
    let c = checker("widget:main", expected);
    let all = c.check(&Ok(answer.clone_value()), &vec![]);
    assert_eq!(all.len(), 2);
    assert_eq!(all[0].message, "Not matching value for a: got \"z\\n\" but expected \"x\"");
    let some = c.check(&Ok(answer.clone_value()), &strings(&["widget:main:missingProperty:*"]));
    assert_eq!(some.len(), 1);
    assert_eq!(some[0].rule, "widget:main:sameValue:a");
    assert!(c.check(&Ok(answer.clone_value()), &strings(&["widget:main:match"])).is_empty());
    assert!(c.check(&Ok(answer), &strings(&["widget:*"])).is_empty());
    assert!(!c.is_ignored(&strings(&["widget:*"])));
    assert!(c.is_ignored(&strings(&["widget:main"])));
    assert!(c.is_ignored(&strings(&["widget:main:*"])));
    assert!(!c.is_ignored(&strings(&["widget:menu"])));
}

#[test]
fn checker_reports_loading_error() {
    let c = checker("manifest", object0());
    let errors = c.check(&Err("Request(\"refused\")".to_string()), &vec![]);
    assert_eq!(errors.len(), 1);
    assert_eq!(errors[0].rule, "manifest:unexpectedError");
    assert_eq!(
        errors[0].message,
        "Error loading manifest checker data: Request(\"refused\")"
    );
    assert_eq!(errors[0].level, RuleErrorLevel::Error);
    assert!(c.check(&Ok(object0()), &vec![]).is_empty());
}

#[test]
fn checker_rules() {
    let c = checker("manifest", object0());
    let rules = c.rules();
    assert_eq!(rules.len(), 1);
    assert_eq!(rules[0].name, "match");
    assert_eq!(rules[0].description, "Checks that the data matches the expected one");
    assert!(rules[0].examples.is_empty());
}

#[test]
fn levels_and_outcome() {
    let warning = RuleError {
        rule: "a".into(),
        message: "m".into(),
        level: RuleErrorLevel::Warning,
    };
    let error = RuleError { rule: "b".into(), message: "n".into(), level: RuleErrorLevel::Error };
    assert_eq!(checker_level(&vec![]), CheckerLevel::Passed);
    let warnings = vec![RuleError { rule: "a".into(), message: "m".into(), level: RuleErrorLevel::Warning }];
    assert_eq!(checker_level(&warnings), CheckerLevel::Warning);
    assert_eq!(checker_level(&vec![error, warning]), CheckerLevel::Error);
    assert!(!fails(CheckerLevel::Warning, false));
    assert!(fails(CheckerLevel::Warning, true));
    assert!(fails(CheckerLevel::Error, false));
    assert!(!fails(CheckerLevel::Passed, true));
    assert!(check_outcome(&vec![CheckerLevel::Passed, CheckerLevel::Warning], false).is_ok());
    match check_outcome(&vec![CheckerLevel::Passed, CheckerLevel::Warning], true) {
        Err(Error::Check) => (),
        other => panic!("unexpected {:?}", other),
    }
    assert_eq!(CheckerLevel::Passed.color(), LevelColor::Green);
    assert_eq!(CheckerLevel::Warning.color(), LevelColor::Yellow);
    assert_eq!(CheckerLevel::Error.color(), LevelColor::Red);
}

#[test]
fn report_texts() {
    assert_eq!(checker_title("manifest", CheckerLevel::Passed), "manifest            : Ok");
    assert_eq!(
        checker_title("a-checker-name-longer-than-20", CheckerLevel::Error),
        "a-checker-name-longer-than-20: Error"
    );
    let error = RuleError {
        rule: "manifest:match:missingProperty:a".into(),
        message: "Missing property a".into(),
        level: RuleErrorLevel::Error,
    };
    assert_eq!(
        error_text(&error),
        "    manifest:match:missingProperty:a\n        Missing property a"
    );
}

#[test]
fn selected_checkers() {
    let all = CheckParameters::default();
    assert!(all.selects("manifest"));
    let some = CheckParameters { rules: strings(&["widget:main"]), ..Default::default() };
    assert!(some.selects("widget:main"));
    assert!(!some.selects("manifest"));
    assert!(some.ignores().is_empty());
    let ignoring = CheckParameters { ignore: Some(strings(&["x"])), ..Default::default() };
    assert_eq!(ignoring.ignores(), strings(&["x"]));
}

#[test]
fn template_check_list() {
    let list = TemplateChecker.check_list();
    let names: Vec<&str> = list.iter().map(|c| c.name.as_str()).collect();
    assert_eq!(names, vec!["manifest", "widget:main", "widget:menu"]);
    for c in &list {
        assert!(c.check(&Ok(c.expected.clone_value()), &vec![]).is_empty());
    }
    let main = &list[1];
    let wrong = c_answer();
    let errors = main.check(&Ok(wrong), &vec![]);
    assert!(errors.iter().all(|e| e.rule.starts_with("widget:main:")));
    assert!(!errors.is_empty());
}

fn c_answer() -> Value {
    object1("type", text_value("flex"))
}

fn value_checker(name: &str, expected: &str) -> ValueChecker {
    ValueChecker { name: name.to_string(), request: object0(), expected: text_value(expected) }
}

#[test]
fn checkers_report_and_outcome() {
    let checkers = vec![value_checker("a", "x"), value_checker("b", "x"), value_checker("c", "x")];
    let loaded: Vec<Result<Value, String>> =
        vec![Ok(text_value("x")), Ok(text_value("y")), Err("down".to_string())];
    let only_a = CheckParameters { strict: false, ignore: None, rules: vec!["a".to_string()] };
    let (lines, outcome) = check_checkers(&only_a, &checkers, &loaded);
    assert_eq!(lines.len(), 1);
    assert_eq!(lines[0].0, format!("a{}: Ok", " ".repeat(19)));
    assert_eq!(lines[0].1, LevelColor::Green);
    assert!(outcome.is_ok());
    let all = CheckParameters { strict: false, ignore: None, rules: vec![] };
    let (lines, outcome) = check_checkers(&all, &checkers, &loaded);
    assert!(lines.len() >= 5, "{:?}", lines);
    assert_eq!(lines[1].0, format!("b{}: Error", " ".repeat(19)));
    assert_eq!(lines[1].1, LevelColor::Red);
    assert!(lines[2].0.starts_with("    "));
    assert!(matches!(outcome, Err(Error::Check)));
    let ignoring = CheckParameters {
        strict: true,
        ignore: Some(vec!["b".to_string(), "c".to_string()]),
        rules: vec![],
    };
    let (lines, outcome) = check_checkers(&ignoring, &checkers, &loaded);
    assert_eq!(lines.len(), 3);
    assert!(outcome.is_ok());
}
