//! The checks of a running app: checkers that compare what the app answers to
//! a request with an expected value, by rules whose errors can be ignored.

use vstd::prelude::*;
use vstd::string::*;

use crate::errors::Error;
use crate::matching::{
    errors_view, has_key, is_scalar, lemma_matching_scalar, lemma_missing_key_reported, matching_errors, scalar_differences,
    type_name_of, MatchingError, MatchingErrorType, MatchingErrorTypeView, MatchingErrorView,
    Value, ValueView,
};
use crate::text::{
    concat2, concat3, contains_str, join, json_quoted, json_string_literal, owned, push_char,
    split_char, split_on,
};

verus! {

/// The separator of the parts of a rule's name.
pub const RULE_SEPARATOR: &'static str = ":";

/// The first part of the name of the checkers of a widget.
pub const WIDGET: &'static str = "widget";

/// Checks the current project.
#[derive(Debug)]
pub struct Check {
    pub command: CheckCommandType,
}

/// The check subcommands.
#[derive(Debug)]
pub enum CheckCommandType {
    /// Check the current project as a template
    Template(CheckParameters),
}

/// The parameters of a check.
#[derive(Debug, Default)]
pub struct CheckParameters {
    /// The strict mode also fails with warning rules.
    pub strict: bool,
    /// A list of rules to ignore.
    pub ignore: Option<Vec<String>>,
    /// The rules.
    pub rules: Vec<String>,
}

/// The level of a checker's result, from the best to the worst.
#[derive(Clone, Copy, Debug, PartialEq, Eq, Structural)]
pub enum CheckerLevel {
    /// No error (shown as `Ok`).
    Passed,
    Warning,
    Error,
}

/// The color in which a checker's result is shown.
#[derive(Clone, Copy, Debug, PartialEq, Eq, Structural)]
pub enum LevelColor {
    Green,
    Yellow,
    Red,
}

/// The level of an error found by a rule.
#[derive(Clone, Copy, Debug, PartialEq, Eq, Structural)]
pub enum RuleErrorLevel {
    Warning,
    Error,
}

/// An error found by a rule.
#[derive(Debug)]
pub struct RuleError {
    pub rule: String,
    pub message: String,
    pub level: RuleErrorLevel,
}

/// The model of a [`RuleError`].
pub struct RuleErrorView {
    pub rule: Seq<char>,
    pub message: Seq<char>,
    pub level: RuleErrorLevel,
}

impl View for RuleError {
    type V = RuleErrorView;

    open spec fn view(&self) -> RuleErrorView {
        RuleErrorView { rule: self.rule@, message: self.message@, level: self.level }
    }
}

/// The models of a list of rule errors.
pub open spec fn rule_errors_view(errs: Seq<RuleError>) -> Seq<RuleErrorView> {
    errs.map_values(|e: RuleError| e@)
}

/// What a rule checks.
#[derive(Clone, Copy, Debug, PartialEq, Eq, Structural)]
pub enum RuleCheck {
    /// The data matches the expected one.
    Match,
}

/// A rule of a checker.
#[derive(Debug)]
pub struct Rule {
    pub name: String,
    pub description: String,
    pub examples: Vec<String>,
    pub check: RuleCheck,
}

/// A checker: the app's answer to a request, compared with the expected value.
#[derive(Debug)]
pub struct ValueChecker {
    pub name: String,
    /// The request whose answer is checked.
    pub request: Value,
    pub expected: Value,
}

/// A set of checkers of an app.
pub trait AppChecker {
    /// The checkers.
    fn check_list(&self) -> Vec<ValueChecker>;
}

// Ignored rules.

/// The prefix of a rule made of its first `i + 1` parts.
pub open spec fn rule_prefix(parts: Seq<Seq<char>>, i: int) -> Seq<char> {
    join(parts.take(i + 1), RULE_SEPARATOR@)
}

/// A rule is ignored where one of its prefixes is in the ignore list, as it is
/// or followed by `:*`.
pub open spec fn rule_ignored(parts: Seq<Seq<char>>, ignores: Seq<Seq<char>>) -> bool {
    exists|i: int|
        0 <= i < parts.len() && (ignores.contains(#[trigger] rule_prefix(parts, i))
            || ignores.contains(rule_prefix(parts, i) + ":*"@))
}

/// Whether the rule made of these parts is ignored.
pub fn ignore_rule(parts: &Vec<String>, ignores: &Vec<String>) -> (r: bool)
    ensures
        r == rule_ignored(
            parts@.map_values(|p: String| p@),
            ignores@.map_values(|p: String| p@),
        ),
{
    let ghost ps = parts@.map_values(|p: String| p@);
    let ghost igs = ignores@.map_values(|p: String| p@);
    let mut prefix = String::new();
    let mut i: usize = 0;
    while i < parts.len()
        invariant
            0 <= i <= parts.len(),
            ps == parts@.map_values(|p: String| p@),
            igs == ignores@.map_values(|p: String| p@),
            i == 0 ==> prefix@ == Seq::<char>::empty(),
            i > 0 ==> prefix@ == rule_prefix(ps, i - 1) + ":"@,
            forall|j: int|
                0 <= j < i ==> !igs.contains(#[trigger] rule_prefix(ps, j)) && !igs.contains(
                    rule_prefix(ps, j) + ":*"@,
                ),
        decreases parts.len() - i,
    {
        proof {
            assert(ps.take(i + 1).drop_last() =~= ps.take(i as int));
            if i == 0 {
                assert(ps.take(1) =~= seq![ps[0]]);
            }
        }
        prefix.append(parts[i].as_str());
        proof {
            assert(prefix@ =~= rule_prefix(ps, i as int));
        }
        if contains_str(ignores, prefix.as_str()) {
            return true;
        }
        let ghost p = prefix@;
        prefix.append(RULE_SEPARATOR);
        let starred = concat2(prefix.as_str(), "*");
        proof {
            reveal_strlit(":");
            reveal_strlit(":*");
            reveal_strlit("*");
            assert(RULE_SEPARATOR@ == ":"@);
            assert(prefix@ =~= p + ":"@);
            assert(starred@ =~= rule_prefix(ps, i as int) + ":*"@);
        }
        if contains_str(ignores, starred.as_str()) {
            return true;
        }
        i += 1;
    }
    false
}

// The rules' errors.

/// How a scalar value is written in a message: as its JSON text.
pub open spec fn value_text(v: ValueView) -> Seq<char> {
    match v {
        ValueView::Null => "null"@,
        ValueView::Bool(b) => if b {
            "true"@
        } else {
            "false"@
        },
        ValueView::Number(n) => n.text,
        ValueView::String(s) => json_quoted(s),
        _ => Seq::empty(),
    }
}

/// The rule error that reports a difference with the expected value.
pub open spec fn rule_error_of(err: MatchingErrorView) -> RuleErrorView {
    match err.error_type {
        MatchingErrorTypeView::NotSameType { actual, expected } => RuleErrorView {
            rule: "sameType"@ + RULE_SEPARATOR@ + err.path,
            message: "Not matching type for "@ + err.path + ": got "@ + type_name_of(actual)
                + " but expected "@ + type_name_of(expected),
            level: RuleErrorLevel::Error,
        },
        MatchingErrorTypeView::NotSameValue { actual, expected } => RuleErrorView {
            rule: "sameValue"@ + RULE_SEPARATOR@ + err.path,
            message: "Not matching value for "@ + err.path + ": got "@ + value_text(actual)
                + " but expected "@ + value_text(expected),
            level: RuleErrorLevel::Error,
        },
        MatchingErrorTypeView::AdditionalProperty => RuleErrorView {
            rule: "additionalProperty"@ + RULE_SEPARATOR@ + err.path,
            message: "Additional property "@ + err.path,
            level: RuleErrorLevel::Warning,
        },
        MatchingErrorTypeView::MissingProperty => RuleErrorView {
            rule: "missingProperty"@ + RULE_SEPARATOR@ + err.path,
            message: "Missing property "@ + err.path,
            level: RuleErrorLevel::Error,
        },
    }
}

/// The errors that a rule finds in a value.
pub open spec fn rule_check_errors(check: RuleCheck, value: ValueView, expected: ValueView) -> Seq<
    RuleErrorView,
> {
    match check {
        RuleCheck::Match => matching_errors(value, expected).unwrap().map_values(
            |e: MatchingErrorView| rule_error_of(e),
        ),
    }
}

/// Writes a scalar value as its JSON text.
fn scalar_text(v: &Value) -> (r: String)
    requires
        is_scalar(v@),
    ensures
        r@ == value_text(v@),
{
    match v {
        Value::Null => owned("null"),
        Value::Bool(b) => if *b {
            owned("true")
        } else {
            owned("false")
        },
        Value::Number(n) => n.text.clone(),
        Value::String(s) => json_string_literal(s.as_str()),
        _ => String::new(),
    }
}

/// The rule error that reports a difference with the expected value.
fn rule_error_from(err: &MatchingError) -> (r: RuleError)
    requires
        err@.error_type matches MatchingErrorTypeView::NotSameValue { actual, expected } ==> is_scalar(
            actual,
        ) && is_scalar(expected),
    ensures
        r@ == rule_error_of(err@),
{
    let path = err.path.as_str();
    match &err.error_type {
        MatchingErrorType::NotSameType { actual, expected } => {
            let mut message = concat3("Not matching type for ", path, ": got ");
            message.append(actual.value_type_name());
            message.append(" but expected ");
            message.append(expected.value_type_name());
            RuleError {
                rule: concat3("sameType", RULE_SEPARATOR, path),
                message,
                level: RuleErrorLevel::Error,
            }
        },
        MatchingErrorType::NotSameValue { actual, expected } => {
            let mut message = concat3("Not matching value for ", path, ": got ");
            let a = scalar_text(actual);
            let e = scalar_text(expected);
            message.append(a.as_str());
            message.append(" but expected ");
            message.append(e.as_str());
            RuleError {
                rule: concat3("sameValue", RULE_SEPARATOR, path),
                message,
                level: RuleErrorLevel::Error,
            }
        },
        MatchingErrorType::AdditionalProperty => RuleError {
            rule: concat3("additionalProperty", RULE_SEPARATOR, path),
            message: concat2("Additional property ", path),
            level: RuleErrorLevel::Warning,
        },
        MatchingErrorType::MissingProperty => RuleError {
            rule: concat3("missingProperty", RULE_SEPARATOR, path),
            message: concat2("Missing property ", path),
            level: RuleErrorLevel::Error,
        },
    }
}

impl Rule {
    /// The errors that the rule finds in a value, given the expected one.
    pub fn check(&self, param: &Value, expected: &Value) -> (r: Vec<RuleError>)
        requires
            matching_errors(param@, expected@) is Some,
        ensures
            rule_errors_view(r@) == rule_check_errors(self.check, param@, expected@),
    {
        match self.check {
            RuleCheck::Match => {
                let errs = param.check_match(expected);
                let ghost found = matching_errors(param@, expected@).unwrap();
                proof {
                    lemma_matching_scalar(param@, expected@);
                }
                let ghost want = found.map_values(|e: MatchingErrorView| rule_error_of(e));
                let mut res: Vec<RuleError> = Vec::new();
                let mut i: usize = 0;
                while i < errs.len()
                    invariant
                        0 <= i <= errs.len(),
                        errors_view(errs@) == found,
                        scalar_differences(found),
                        want == found.map_values(|e: MatchingErrorView| rule_error_of(e)),
                        rule_errors_view(res@) == want.take(i as int),
                    decreases errs.len() - i,
                {
                    proof {
                        assert(found[i as int] == errs@[i as int]@);
                    }
                    let e = rule_error_from(&errs[i]);
                    let ghost before = res@;
                    res.push(e);
                    proof {
                        assert(rule_errors_view(res@) =~= rule_errors_view(before).push(e@));
                        assert(want.take(i + 1) =~= want.take(i as int).push(want[i as int]));
                    }
                    i += 1;
                }
                proof {
                    assert(want.take(i as int) =~= want);
                }
                res
            },
        }
    }
}

} // verus!

verus! {

/// The model of a [`Rule`]: its name and what it checks.
pub struct RuleView {
    pub name: Seq<char>,
    pub check: RuleCheck,
}

/// The rules of a value checker: the data matches the expected one.
pub open spec fn value_checker_rules() -> Seq<RuleView> {
    seq![RuleView { name: "match"@, check: RuleCheck::Match }]
}

/// The errors that a checker's rule reports: named after the checker, without
/// those ignored; none where the rule itself is ignored.
pub open spec fn rule_errors(
    name: Seq<char>,
    rule: RuleView,
    value: ValueView,
    expected: ValueView,
    ignores: Seq<Seq<char>>,
) -> Seq<RuleErrorView> {
    if rule_ignored(seq![name, rule.name], ignores) {
        Seq::empty()
    } else {
        rule_check_errors(rule.check, value, expected).map_values(
            |e: RuleErrorView|
                RuleErrorView { rule: name + RULE_SEPARATOR@ + e.rule, message: e.message, level: e.level },
        ).filter(|e: RuleErrorView| !rule_ignored(split_char(e.rule, ':'), ignores))
    }
}

/// The errors that a checker's rules report, rule after rule.
pub open spec fn rules_errors(
    name: Seq<char>,
    rules: Seq<RuleView>,
    value: ValueView,
    expected: ValueView,
    ignores: Seq<Seq<char>>,
) -> Seq<RuleErrorView>
    decreases rules.len(),
{
    if rules.len() == 0 {
        Seq::empty()
    } else {
        rules_errors(name, rules.drop_last(), value, expected, ignores) + rule_errors(
            name,
            rules.last(),
            value,
            expected,
            ignores,
        )
    }
}

/// The error of a checker whose data could not be loaded.
pub open spec fn unexpected_error(name: Seq<char>, reason: Seq<char>) -> RuleErrorView {
    RuleErrorView {
        rule: name + RULE_SEPARATOR@ + "unexpectedError"@,
        message: "Error loading "@ + name + " checker data: "@ + reason,
        level: RuleErrorLevel::Error,
    }
}

/// The errors that a checker reports on the data loaded for it (or on the
/// reason it could not be loaded): none where the checker is ignored.
pub open spec fn checker_errors(
    name: Seq<char>,
    expected: ValueView,
    loaded: Result<ValueView, Seq<char>>,
    ignores: Seq<Seq<char>>,
) -> Seq<RuleErrorView> {
    if rule_ignored(seq![name], ignores) {
        Seq::empty()
    } else {
        match loaded {
            Ok(value) => rules_errors(name, value_checker_rules(), value, expected, ignores),
            Err(reason) => seq![unexpected_error(name, reason)],
        }
    }
}

/// The model of a loaded value.
pub open spec fn loaded_view(loaded: Result<Value, String>) -> Result<ValueView, Seq<char>> {
    match loaded {
        Ok(v) => Ok(v@),
        Err(e) => Err(e@),
    }
}

impl ValueChecker {
    /// The rules of the checker.
    pub fn rules(&self) -> (r: Vec<Rule>)
        ensures
            r@.len() == 1,
            r@[0].name@ == value_checker_rules()[0].name,
            r@[0].check == value_checker_rules()[0].check,
            r@[0].description@ == "Checks that the data matches the expected one"@,
            r@[0].examples@.len() == 0,
    {
        vec![
            Rule {
                name: owned("match"),
                description: owned("Checks that the data matches the expected one"),
                examples: Vec::new(),
                check: RuleCheck::Match,
            },
        ]
    }

    /// Whether the checker is ignored, in which case its data is not loaded.
    pub fn is_ignored(&self, ignores: &Vec<String>) -> (r: bool)
        ensures
            r == rule_ignored(seq![self.name@], ignores@.map_values(|p: String| p@)),
    {
        let parts = vec![self.name.clone()];
        proof {
            assert(parts@.map_values(|p: String| p@) =~= seq![self.name@]);
        }
        ignore_rule(&parts, ignores)
    }

    /// The errors that the checker reports on the data loaded for it (or on
    /// the reason it could not be loaded), without the ignored ones.
    pub fn check(&self, loaded: &Result<Value, String>, ignores: &Vec<String>) -> (r: Vec<
        RuleError,
    >)
        requires
            loaded matches Ok(v) ==> matching_errors(v@, self.expected@) is Some,
        ensures
            rule_errors_view(r@) == checker_errors(
                self.name@,
                self.expected@,
                loaded_view(*loaded),
                ignores@.map_values(|p: String| p@),
            ),
    {
        let ghost igs = ignores@.map_values(|p: String| p@);
        if self.is_ignored(ignores) {
            let r: Vec<RuleError> = Vec::new();
            proof {
                assert(rule_errors_view(r@) =~= Seq::empty());
            }
            return r;
        }
        match loaded {
            Ok(value) => {
                let rules = self.rules();
                let ghost rs = value_checker_rules();
                let mut res: Vec<RuleError> = Vec::new();
                proof {
                    assert(rule_errors_view(res@) =~= Seq::empty());
                    assert(rs.take(0) =~= Seq::<RuleView>::empty());
                }
                let mut k: usize = 0;
                while k < rules.len()
                    invariant
                        0 <= k <= rules.len(),
                        rules@.len() == rs.len(),
                        forall|j: int|
                            0 <= j < rs.len() ==> rules@[j].name@ == rs[j].name && rules@[j].check
                                == rs[j].check,
                        igs == ignores@.map_values(|p: String| p@),
                        matching_errors(value@, self.expected@) is Some,
                        rule_errors_view(res@) == rules_errors(
                            self.name@,
                            rs.take(k as int),
                            value@,
                            self.expected@,
                            igs,
                        ),
                    decreases rules.len() - k,
                {
                    let ghost before = rule_errors_view(res@);
                    let rule = &rules[k];
                    let ghost rv = RuleView { name: rule.name@, check: rule.check };
                    proof {
                        assert(rs.take(k + 1).drop_last() =~= rs.take(k as int));
                        assert(rs.take(k + 1).last() == rv);
                    }
                    self.push_rule_errors(&mut res, rule, value, ignores);
                    proof {
                        assert(rule_errors_view(res@) == before + rule_errors(
                            self.name@,
                            rv,
                            value@,
                            self.expected@,
                            igs,
                        ));
                    }
                    k += 1;
                }
                proof {
                    assert(rs.take(k as int) =~= rs);
                }
                res
            },
            Err(reason) => {
                let mut message = concat3("Error loading ", self.name.as_str(), " checker data: ");
                message.append(reason.as_str());
                let e = RuleError {
                    rule: concat3(self.name.as_str(), RULE_SEPARATOR, "unexpectedError"),
                    message,
                    level: RuleErrorLevel::Error,
                };
                let r = vec![e];
                proof {
                    assert(rule_errors_view(r@) =~= seq![e@]);
                }
                r
            },
        }
    }

    /// Appends the errors that a rule of the checker reports on the value.
    fn push_rule_errors(
        &self,
        res: &mut Vec<RuleError>,
        rule: &Rule,
        value: &Value,
        ignores: &Vec<String>,
    )
        requires
            matching_errors(value@, self.expected@) is Some,
        ensures
            rule_errors_view(final(res)@) == rule_errors_view(old(res)@) + rule_errors(
                self.name@,
                RuleView { name: rule.name@, check: rule.check },
                value@,
                self.expected@,
                ignores@.map_values(|p: String| p@),
            ),
    {
        let ghost igs = ignores@.map_values(|p: String| p@);
        let ghost start = rule_errors_view(res@);
        let parts = vec![self.name.clone(), rule.name.clone()];
        proof {
            assert(parts@.map_values(|p: String| p@) =~= seq![self.name@, rule.name@]);
        }
        if ignore_rule(&parts, ignores) {
            proof {
                assert(rule_errors_view(res@) =~= start + Seq::empty());
            }
            return ;
        }
        let errs = rule.check(value, &self.expected);
        let ghost named = rule_check_errors(rule.check, value@, self.expected@).map_values(
            |e: RuleErrorView|
                RuleErrorView { rule: self.name@ + RULE_SEPARATOR@ + e.rule, message: e.message, level: e.level },
        );
        let ghost keep = |e: RuleErrorView| !rule_ignored(split_char(e.rule, ':'), igs);
        proof {
            reveal(Seq::filter);
            assert(named.take(0) =~= Seq::<RuleErrorView>::empty());
            assert(rule_errors_view(res@) =~= start + named.take(0).filter(keep));
        }
        let mut i: usize = 0;
        while i < errs.len()
            invariant
                0 <= i <= errs.len(),
                rule_errors_view(errs@) == rule_check_errors(rule.check, value@, self.expected@),
                named.len() == errs@.len(),
                named == rule_check_errors(rule.check, value@, self.expected@).map_values(
                    |e: RuleErrorView|
                        RuleErrorView {
                            rule: self.name@ + RULE_SEPARATOR@ + e.rule,
                            message: e.message,
                            level: e.level,
                        },
                ),
                keep == (|e: RuleErrorView| !rule_ignored(split_char(e.rule, ':'), igs)),
                igs == ignores@.map_values(|p: String| p@),
                rule_errors_view(res@) == start + named.take(i as int).filter(keep),
            decreases errs.len() - i,
        {
            let e = &errs[i];
            let full = concat3(self.name.as_str(), RULE_SEPARATOR, e.rule.as_str());
            let ghost ne = named[i as int];
            proof {
                assert(errs@[i as int]@ == rule_errors_view(errs@)[i as int]);
                assert(full@ == ne.rule);
                assert(named.take(i + 1).drop_last() =~= named.take(i as int));
                assert(named.take(i + 1).last() == ne);
                reveal(Seq::filter);
            }
            let pieces = split_on(full.as_str(), ':');
            let ignored = ignore_rule(&pieces, ignores);
            if !ignored {
                let kept = RuleError { rule: full, message: e.message.clone(), level: e.level };
                let ghost before = res@;
                res.push(kept);
                proof {
                    assert(kept@ == ne);
                    assert(rule_errors_view(res@) =~= rule_errors_view(before).push(kept@));
                    assert(named.take(i + 1).filter(keep) == named.take(i as int).filter(
                        keep,
                    ).push(ne));
                    assert(rule_errors_view(res@) =~= start + named.take(i + 1).filter(keep));
                }
            } else {
                proof {
                    assert(named.take(i + 1).filter(keep) == named.take(i as int).filter(keep));
                }
            }
            i += 1;
        }
        proof {
            assert(named.take(i as int) =~= named);
        }
    }
}

} // verus!

verus! {

/// The level that an error of a rule gives a checker.
pub open spec fn level_of(l: RuleErrorLevel) -> CheckerLevel {
    match l {
        RuleErrorLevel::Warning => CheckerLevel::Warning,
        RuleErrorLevel::Error => CheckerLevel::Error,
    }
}

/// The rank of a level, from the best to the worst.
pub open spec fn level_rank(l: CheckerLevel) -> nat {
    match l {
        CheckerLevel::Passed => 0,
        CheckerLevel::Warning => 1,
        CheckerLevel::Error => 2,
    }
}

/// The worse of two levels.
pub open spec fn worse(a: CheckerLevel, b: CheckerLevel) -> CheckerLevel {
    if level_rank(a) >= level_rank(b) {
        a
    } else {
        b
    }
}

/// A checker's level: the worst level of its errors, `Ok` where there is none.
pub open spec fn errors_level(errs: Seq<RuleErrorView>) -> CheckerLevel
    decreases errs.len(),
{
    if errs.len() == 0 {
        CheckerLevel::Passed
    } else {
        worse(errors_level(errs.drop_last()), level_of(errs.last().level))
    }
}

/// A checker's level fails the check: an error, or a warning in strict mode.
pub open spec fn level_fails(level: CheckerLevel, strict: bool) -> bool {
    level == CheckerLevel::Error || (level == CheckerLevel::Warning && strict)
}

/// The checker runs: no rule is asked for, or its name is among them.
pub open spec fn checker_selected(name: Seq<char>, rules: Seq<Seq<char>>) -> bool {
    rules.len() == 0 || rules.contains(name)
}

impl CheckerLevel {
    /// The color in which the level is shown.
    pub fn color(&self) -> (r: LevelColor)
        ensures
            r == match *self {
                CheckerLevel::Passed => LevelColor::Green,
                CheckerLevel::Warning => LevelColor::Yellow,
                CheckerLevel::Error => LevelColor::Red,
            },
    {
        match self {
            CheckerLevel::Passed => LevelColor::Green,
            CheckerLevel::Warning => LevelColor::Yellow,
            CheckerLevel::Error => LevelColor::Red,
        }
    }

    /// The name of the level as it is shown.
    pub fn name(&self) -> (r: &'static str)
        ensures
            r@ == match *self {
                CheckerLevel::Passed => "Ok"@,
                CheckerLevel::Warning => "Warning"@,
                CheckerLevel::Error => "Error"@,
            },
    {
        match self {
            CheckerLevel::Passed => "Ok",
            CheckerLevel::Warning => "Warning",
            CheckerLevel::Error => "Error",
        }
    }
}

impl CheckParameters {
    /// Whether the checker of that name runs.
    pub fn selects(&self, name: &str) -> (r: bool)
        ensures
            r == checker_selected(name@, self.rules@.map_values(|p: String| p@)),
    {
        self.rules.len() == 0 || contains_str(&self.rules, name)
    }

    /// The rules to ignore: none where the list is not given.
    pub fn ignores(&self) -> (r: Vec<String>)
        ensures
            r@.map_values(|p: String| p@) == match self.ignore {
                Some(v) => v@.map_values(|p: String| p@),
                None => Seq::empty(),
            },
    {
        match &self.ignore {
            Some(v) => {
                let r = crate::config::clone_strings(v);
                proof {
                    assert(r@.map_values(|p: String| p@) =~= crate::config::strings_view(r@));
                    assert(v@.map_values(|p: String| p@) =~= crate::config::strings_view(v@));
                }
                r
            },
            None => {
                let r: Vec<String> = Vec::new();
                proof {
                    assert(r@.map_values(|p: String| p@) =~= Seq::<Seq<char>>::empty());
                }
                r
            },
        }
    }
}

/// The level of a checker that reported these errors.
pub fn checker_level(errors: &Vec<RuleError>) -> (r: CheckerLevel)
    ensures
        r == errors_level(rule_errors_view(errors@)),
{
    let ghost errs = rule_errors_view(errors@);
    let mut level = CheckerLevel::Passed;
    let mut i: usize = 0;
    while i < errors.len()
        invariant
            0 <= i <= errors.len(),
            errs == rule_errors_view(errors@),
            level == errors_level(errs.take(i as int)),
        decreases errors.len() - i,
    {
        proof {
            assert(errs.take(i + 1).drop_last() =~= errs.take(i as int));
            assert(errs.take(i + 1).last() == errors@[i as int]@);
        }
        let l = match errors[i].level {
            RuleErrorLevel::Warning => CheckerLevel::Warning,
            RuleErrorLevel::Error => CheckerLevel::Error,
        };
        let keep_level = match (level, l) {
            (CheckerLevel::Error, _) => true,
            (CheckerLevel::Warning, CheckerLevel::Error) => false,
            (CheckerLevel::Warning, _) => true,
            (CheckerLevel::Passed, CheckerLevel::Passed) => true,
            (CheckerLevel::Passed, _) => false,
        };
        if !keep_level {
            level = l;
        }
        i += 1;
    }
    proof {
        assert(errs.take(i as int) =~= errs);
    }
    level
}

/// Whether a checker's level fails the check.
pub fn fails(level: CheckerLevel, strict: bool) -> (r: bool)
    ensures
        r == level_fails(level, strict),
{
    match level {
        CheckerLevel::Error => true,
        CheckerLevel::Warning => strict,
        CheckerLevel::Passed => false,
    }
}

/// The outcome of a check whose checkers reached these levels: a check error
/// where one of them fails.
pub fn check_outcome(levels: &Vec<CheckerLevel>, strict: bool) -> (r: Result<(), Error>)
    ensures
        r is Err <==> exists|i: int| 0 <= i < levels@.len() && level_fails(levels@[i], strict),
        r matches Err(e) ==> e is Check,
{
    let mut i: usize = 0;
    while i < levels.len()
        invariant
            0 <= i <= levels.len(),
            forall|j: int| 0 <= j < i ==> !level_fails(levels@[j], strict),
        decreases levels.len() - i,
    {
        if fails(levels[i], strict) {
            return Err(Error::Check);
        }
        i += 1;
    }
    Ok(())
}

/// The spaces that pad a text to the given width.
pub open spec fn padding(len: nat, width: nat) -> Seq<char> {
    Seq::new(if len < width { (width - len) as nat } else { 0 }, |i: int| ' ')
}

/// The line that shows a checker's level: its name on 20 columns, then the level.
pub fn checker_title(name: &str, level: CheckerLevel) -> (r: String)
    ensures
        r@ == name@ + padding(name@.len(), 20) + ": "@ + match level {
            CheckerLevel::Passed => "Ok"@,
            CheckerLevel::Warning => "Warning"@,
            CheckerLevel::Error => "Error"@,
        },
{
    let mut r = owned(name);
    let n = name.unicode_len();
    let mut k: usize = n;
    while k < 20
        invariant
            n == name@.len(),
            n <= k <= 20 || (n > 20 && k == n),
            r@ == name@ + Seq::new((k - n) as nat, |i: int| ' '),
        decreases 20 - k,
    {
        let ghost before = r@;
        push_char(&mut r, ' ');
        proof {
            assert(r@ =~= name@ + Seq::new((k + 1 - n) as nat, |i: int| ' '));
        }
        k += 1;
    }
    proof {
        assert(Seq::new((k - n) as nat, |i: int| ' ') =~= padding(name@.len(), 20));
    }
    r.append(": ");
    r.append(level.name());
    r
}

/// The lines that show an error: its rule, then its message further in.
pub fn error_text(error: &RuleError) -> (r: String)
    ensures
        r@ == "    "@ + error.rule@ + "\n        "@ + error.message@,
{
    let mut r = concat3("    ", error.rule.as_str(), "\n        ");
    r.append(error.message.as_str());
    r
}

} // verus!

verus! {

/// Ignoring a rule ignores every rule under it: a rule whose prefix is
/// ignored stays ignored with more parts.
pub proof fn lemma_ignored_prefix(parts: Seq<Seq<char>>, more: Seq<Seq<char>>, ignores: Seq<Seq<char>>)
    requires
        rule_ignored(parts, ignores),
    ensures
        rule_ignored(parts + more, ignores),
{
    let i = choose|i: int|
        0 <= i < parts.len() && (ignores.contains(#[trigger] rule_prefix(parts, i))
            || ignores.contains(rule_prefix(parts, i) + ":*"@));
    assert((parts + more).take(i + 1) =~= parts.take(i + 1));
    assert(rule_prefix(parts + more, i) == rule_prefix(parts, i));
}

/// An ignored checker reports nothing, whatever its data.
pub proof fn lemma_ignored_checker_silent(
    name: Seq<char>,
    expected: ValueView,
    loaded: Result<ValueView, Seq<char>>,
    ignores: Seq<Seq<char>>,
)
    requires
        rule_ignored(seq![name], ignores),
    ensures
        checker_errors(name, expected, loaded, ignores).len() == 0,
{
}

/// A checker's level is `Ok` exactly when it reports no error, and `Error`
/// exactly when one of its errors is an error rather than a warning.
pub proof fn lemma_errors_level(errs: Seq<RuleErrorView>)
    ensures
        errors_level(errs) == CheckerLevel::Passed <==> errs.len() == 0,
        errors_level(errs) == CheckerLevel::Error <==> exists|i: int|
            0 <= i < errs.len() && (#[trigger] errs[i]).level == RuleErrorLevel::Error,
    decreases errs.len(),
{
    if errs.len() > 0 {
        let init = errs.drop_last();
        lemma_errors_level(init);
        if exists|i: int| 0 <= i < init.len() && (#[trigger] init[i]).level == RuleErrorLevel::Error {
            let i = choose|i: int| 0 <= i < init.len() && (#[trigger] init[i]).level == RuleErrorLevel::Error;
            assert(errs[i] == init[i]);
        }
        if exists|i: int| 0 <= i < errs.len() && (#[trigger] errs[i]).level == RuleErrorLevel::Error {
            let i = choose|i: int| 0 <= i < errs.len() && (#[trigger] errs[i]).level == RuleErrorLevel::Error;
            if i < init.len() {
                assert(init[i] == errs[i]);
            }
        }
        assert(errs.last() == errs[errs.len() - 1]);
    }
}

/// The strict mode fails on all the levels that the default mode fails on.
pub proof fn lemma_strict_fails_more(level: CheckerLevel)
    ensures
        level_fails(level, false) ==> level_fails(level, true),
        level_fails(level, true) ==> level != CheckerLevel::Passed,
{
}

} // verus!

verus! {

/// An app that answers exactly the expected value passes the checker: no rule
/// reports an error.
pub proof fn lemma_expected_answer_passes(
    name: Seq<char>,
    expected: ValueView,
    ignores: Seq<Seq<char>>,
)
    ensures
        checker_errors(name, expected, Ok(expected), ignores).len() == 0,
        errors_level(checker_errors(name, expected, Ok(expected), ignores))
            == CheckerLevel::Passed,
{
    if !rule_ignored(seq![name], ignores) {
        let rules = value_checker_rules();
        assert(rules.drop_last() =~= Seq::<RuleView>::empty());
        let rule = rules.last();
        assert(rule_errors(name, rule, expected, expected, ignores).len() == 0) by {
            reveal(Seq::filter);
            let found = rule_check_errors(rule.check, expected, expected);
            assert(found =~= Seq::<RuleErrorView>::empty());
        }
        assert(rules_errors(name, rules.drop_last(), expected, expected, ignores).len() == 0);
        assert(rules_errors(name, rules, expected, expected, ignores).len() == 0);
    }
    lemma_errors_level(checker_errors(name, expected, Ok(expected), ignores));
}

} // verus!

verus! {

// The check of an app by its checkers.

/// The name of a level as it is shown.
pub open spec fn level_name(l: CheckerLevel) -> Seq<char> {
    match l {
        CheckerLevel::Passed => "Ok"@,
        CheckerLevel::Warning => "Warning"@,
        CheckerLevel::Error => "Error"@,
    }
}

/// The color in which a level is shown.
pub open spec fn level_color(l: CheckerLevel) -> LevelColor {
    match l {
        CheckerLevel::Passed => LevelColor::Green,
        CheckerLevel::Warning => LevelColor::Yellow,
        CheckerLevel::Error => LevelColor::Red,
    }
}

/// The line of an error, in the color of its level.
pub open spec fn error_line(e: RuleErrorView) -> (Seq<char>, LevelColor) {
    ("    "@ + e.rule + "\n        "@ + e.message, level_color(level_of(e.level)))
}

/// The lines that a checker shows: its name and level, in the level's color,
/// then each of its errors.
pub open spec fn checker_lines(name: Seq<char>, errs: Seq<RuleErrorView>) -> Seq<(Seq<char>, LevelColor)> {
    seq![title_line(name, errors_level(errs))] + errs.map_values(|e: RuleErrorView| error_line(e))
}

/// The line of a checker's name and level, in the level's color.
pub open spec fn title_line(name: Seq<char>, level: CheckerLevel) -> (Seq<char>, LevelColor) {
    (name + padding(name.len(), 20) + ": "@ + level_name(level), level_color(level))
}

/// What the checkers report on the data loaded for each of them: the lines
/// shown by the selected ones, in order, and their levels.
pub open spec fn check_report(
    checkers: Seq<ValueChecker>,
    loaded: Seq<Result<ValueView, Seq<char>>>,
    rules: Seq<Seq<char>>,
    ignores: Seq<Seq<char>>,
) -> (Seq<(Seq<char>, LevelColor)>, Seq<CheckerLevel>)
    decreases checkers.len(),
{
    if checkers.len() == 0 {
        (Seq::empty(), Seq::empty())
    } else {
        let (lines, levels) = check_report(checkers.drop_last(), loaded.drop_last(), rules, ignores);
        let c = checkers.last();
        if checker_selected(c.name@, rules) {
            let errs = checker_errors(c.name@, c.expected@, loaded.last(), ignores);
            (lines + checker_lines(c.name@, errs), levels.push(errors_level(errs)))
        } else {
            (lines, levels)
        }
    }
}

/// What the checkers report under the check's parameters.
pub open spec fn params_report(
    params: CheckParameters,
    checkers: Seq<ValueChecker>,
    loaded: Seq<Result<Value, String>>,
) -> (Seq<(Seq<char>, LevelColor)>, Seq<CheckerLevel>) {
    check_report(
        checkers,
        loaded_views(loaded),
        params.rules@.map_values(|p: String| p@),
        match params.ignore {
            Some(v) => v@.map_values(|p: String| p@),
            None => Seq::empty(),
        },
    )
}

/// The models of the loaded data.
pub open spec fn loaded_views(loaded: Seq<Result<Value, String>>) -> Seq<Result<ValueView, Seq<char>>> {
    loaded.map_values(|l: Result<Value, String>| loaded_view(l))
}

/// The models of the lines shown.
pub open spec fn lines_view(lines: Seq<(String, LevelColor)>) -> Seq<(Seq<char>, LevelColor)> {
    lines.map_values(|l: (String, LevelColor)| (l.0@, l.1))
}

/// The check of an app by its checkers, on the data loaded for each of them
/// (or the reason it could not be loaded): the lines that the selected
/// checkers show, in order, and a check error where one of them reaches a
/// level that fails (an error, or a warning in strict mode).
#[verifier::loop_isolation(false)]
pub fn check_checkers(
    params: &CheckParameters,
    checkers: &Vec<ValueChecker>,
    loaded: &Vec<Result<Value, String>>,
) -> (r: (Vec<(String, LevelColor)>, Result<(), Error>))
    requires
        loaded@.len() == checkers@.len(),
        forall|i: int|
            0 <= i < loaded@.len() ==> ((#[trigger] loaded@[i]) matches Ok(v) ==> matching_errors(
                v@,
                checkers@[i].expected@,
            ) is Some),
    ensures
        lines_view(r.0@) == params_report(*params, checkers@, loaded@).0,
        r.1 is Err <==> exists|j: int|
            0 <= j < params_report(*params, checkers@, loaded@).1.len() && level_fails(
                #[trigger] params_report(*params, checkers@, loaded@).1[j],
                params.strict,
            ),
        r.1 matches Err(e) ==> e is Check,
{
    let ignores = params.ignores();
    let ghost igs = ignores@.map_values(|p: String| p@);
    let ghost rules = params.rules@.map_values(|p: String| p@);
    let ghost lv = loaded_views(loaded@);
    let mut lines: Vec<(String, LevelColor)> = Vec::new();
    let mut levels: Vec<CheckerLevel> = Vec::new();
    let mut i: usize = 0;
    proof {
        assert(checkers@.take(0) =~= Seq::<ValueChecker>::empty());
        assert(lines_view(lines@) =~= Seq::empty());
        assert(levels@ =~= Seq::<CheckerLevel>::empty());
    }
    while i < checkers.len()
        invariant
            0 <= i <= checkers.len(),
            loaded@.len() == checkers@.len(),
            forall|k: int|
                0 <= k < loaded@.len() ==> ((#[trigger] loaded@[k]) matches Ok(v) ==> matching_errors(
                    v@,
                    checkers@[k].expected@,
                ) is Some),
            lv == loaded_views(loaded@),
            igs == ignores@.map_values(|p: String| p@),
            rules == params.rules@.map_values(|p: String| p@),
            lines_view(lines@) == check_report(checkers@.take(i as int), lv.take(i as int), rules, igs).0,
            levels@ == check_report(checkers@.take(i as int), lv.take(i as int), rules, igs).1,
        decreases checkers.len() - i,
    {
        proof {
            assert(checkers@.take(i + 1).drop_last() =~= checkers@.take(i as int));
            assert(lv.take(i + 1).drop_last() =~= lv.take(i as int));
            assert(checkers@.take(i + 1).last() == checkers@[i as int]);
            assert(lv.take(i + 1).last() == loaded_view(loaded@[i as int]));
        }
        let checker = &checkers[i];
        if params.selects(checker.name.as_str()) {
            let errors = checker.check(&loaded[i], &ignores);
            let level = checker_level(&errors);
            let ghost errs = rule_errors_view(errors@);
            let ghost before = lines_view(lines@);
            lines.push((checker_title(checker.name.as_str(), level), level.color()));
            proof {
                assert(lines_view(lines@) =~= before + seq![title_line(checker.name@, level)]
                    + errs.take(0).map_values(|e: RuleErrorView| error_line(e)));
            }
            let mut k: usize = 0;
            while k < errors.len()
                invariant
                    0 <= k <= errors.len(),
                    errs == rule_errors_view(errors@),
                    lines_view(lines@) == before + seq![title_line(checker.name@, level)]
                        + errs.take(k as int).map_values(|e: RuleErrorView| error_line(e)),
                decreases errors.len() - k,
            {
                let e = &errors[k];
                let l = match e.level {
                    RuleErrorLevel::Warning => LevelColor::Yellow,
                    RuleErrorLevel::Error => LevelColor::Red,
                };
                let ghost prev = lines_view(lines@);
                lines.push((error_text(e), l));
                proof {
                    assert(errs.take(k + 1).map_values(|e: RuleErrorView| error_line(e)) =~= errs.take(
                        k as int,
                    ).map_values(|e: RuleErrorView| error_line(e)).push(error_line(errs[k as int])));
                    assert(lines_view(lines@) =~= prev.push(error_line(errs[k as int])));
                }
                k += 1;
            }
            proof {
                assert(errs.take(k as int) =~= errs);
                assert(lines_view(lines@) =~= before + checker_lines(checker.name@, errs));
            }
            levels.push(level);
        }
        i += 1;
    }
    proof {
        assert(checkers@.take(i as int) =~= checkers@);
        assert(lv.take(i as int) =~= lv);
        assert(lines_view(lines@) == check_report(checkers@, lv, rules, igs).0);
        assert(igs == match params.ignore {
            Some(v) => v@.map_values(|p: String| p@),
            None => Seq::empty(),
        });
    }
    let outcome = check_outcome(&levels, params.strict);
    proof {
        let rep = params_report(*params, checkers@, loaded@);
        assert(rep == check_report(checkers@, lv, rules, igs));
        assert(levels@ == rep.1);
        if outcome is Err {
            let j = choose|j: int| 0 <= j < levels@.len() && level_fails(levels@[j], params.strict);
            assert(level_fails(rep.1[j], params.strict));
        }
    }
    (lines, outcome)
}

} // verus!


verus! {

// What the checkers report of a missing property.

/// Only an additional property is a warning: a missing property, a value of
/// another type and a different value are errors.
pub proof fn lemma_rule_error_levels(e: MatchingErrorView)
    ensures
        rule_error_of(e).level == RuleErrorLevel::Warning <==> e.error_type is AdditionalProperty,
        e.error_type is MissingProperty ==> rule_error_of(e).level == RuleErrorLevel::Error,
{
}

/// An answer that lacks a property of the expected object fails its checker,
/// when nothing is ignored: the property is reported missing as an error, the
/// checker's level is `Error`, and the check fails even without strict mode.
pub proof fn lemma_missing_property_fails(
    name: Seq<char>,
    entries: Seq<(Seq<char>, ValueView)>,
    exp: Seq<(Seq<char>, ValueView)>,
    key: Seq<char>,
)
    requires
        has_key(exp, key),
        !has_key(entries, key),
        matching_errors(ValueView::Object(entries), ValueView::Object(exp)) is Some,
    ensures
        checker_errors(name, ValueView::Object(exp), Ok(ValueView::Object(entries)), Seq::empty()).contains(
            RuleErrorView {
                rule: name + RULE_SEPARATOR@ + "missingProperty"@ + RULE_SEPARATOR@ + key,
                message: "Missing property "@ + key,
                level: RuleErrorLevel::Error,
            },
        ),
        errors_level(
            checker_errors(name, ValueView::Object(exp), Ok(ValueView::Object(entries)), Seq::empty()),
        ) == CheckerLevel::Error,
        level_fails(
            errors_level(
                checker_errors(name, ValueView::Object(exp), Ok(ValueView::Object(entries)), Seq::empty()),
            ),
            false,
        ),
{
    broadcast use vstd::seq_lib::group_seq_properties;

    let value = ValueView::Object(entries);
    let expected = ValueView::Object(exp);
    let ignores = Seq::<Seq<char>>::empty();
    let missing = MatchingErrorView { path: key, error_type: MatchingErrorTypeView::MissingProperty };
    lemma_missing_key_reported(entries, exp, key);
    let all = matching_errors(value, expected)->0;
    let i = choose|i: int| 0 <= i < all.len() && all[i] == missing;
    let rule = value_checker_rules()[0];
    let rce = rule_check_errors(rule.check, value, expected);
    assert(rce[i] == rule_error_of(missing));
    let mapped = rce.map_values(
        |e: RuleErrorView|
            RuleErrorView { rule: name + RULE_SEPARATOR@ + e.rule, message: e.message, level: e.level },
    );
    let target = RuleErrorView {
        rule: name + RULE_SEPARATOR@ + "missingProperty"@ + RULE_SEPARATOR@ + key,
        message: "Missing property "@ + key,
        level: RuleErrorLevel::Error,
    };
    assert(mapped[i].rule =~= target.rule);
    assert(mapped[i] == target);
    assert(!rule_ignored(seq![name, rule.name], ignores));
    assert(!rule_ignored(split_char(target.rule, ':'), ignores));
    let filtered = mapped.filter(|e: RuleErrorView| !rule_ignored(split_char(e.rule, ':'), ignores));
    assert(filtered.contains(mapped[i]));
    assert(rule_errors(name, rule, value, expected, ignores) == filtered);
    assert(value_checker_rules().drop_last() =~= Seq::<RuleView>::empty());
    assert(value_checker_rules().last() == rule);
    assert(rules_errors(name, value_checker_rules().drop_last(), value, expected, ignores)
        =~= Seq::<RuleErrorView>::empty());
    assert(rules_errors(name, value_checker_rules(), value, expected, ignores) =~= filtered);
    assert(!rule_ignored(seq![name], ignores));
    let errs = checker_errors(name, expected, Ok(value), ignores);
    assert(errs == filtered);
    let k = choose|k: int| 0 <= k < errs.len() && errs[k] == target;
    lemma_errors_level(errs);
    assert(errs[k].level == RuleErrorLevel::Error);
}

} // verus!
