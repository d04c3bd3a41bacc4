//! Structural matching of a document value against an expected one.
//!
//! A document value is the library's model of a `serde_json::Value` (or of a
//! `serde_yaml::Value` without tags and with text keys): an object lists its
//! entries in the document map's own order, each key once.

use vstd::prelude::*;
use vstd::string::*;

use crate::text::{concat3, decimal, lemma_decimal_digits, lemma_decimal_injective, owned, to_decimal};

verus! {

/// How a number is held: a non-negative integer, a negative integer or a float.
#[derive(Clone, Copy, Debug, PartialEq, Eq, Structural)]
pub enum NumberKind {
    PosInt(u64),
    NegInt(i64),
    Float,
}

/// A number of a document.
#[derive(Debug)]
pub struct Number {
    pub kind: NumberKind,
    /// The bits of the number taken as a 64-bit float, with a negative zero
    /// taken as a positive one: two numbers are equal as floats exactly when
    /// these bits are equal.
    pub f64_key: u64,
    /// The number as the document library writes it.
    pub text: String,
}

/// The mathematical model of a [`Number`].
pub struct NumberView {
    pub kind: NumberKind,
    pub f64_key: u64,
    pub text: Seq<char>,
}

impl View for Number {
    type V = NumberView;

    open spec fn view(&self) -> NumberView {
        NumberView { kind: self.kind, f64_key: self.f64_key, text: self.text@ }
    }
}

impl NumberView {
    /// The number is held as a float.
    pub open spec fn is_f64(self) -> bool {
        self.kind is Float
    }

    /// The number is an integer that fits in an `i64`.
    pub open spec fn is_i64(self) -> bool {
        match self.kind {
            NumberKind::PosInt(n) => n <= i64::MAX,
            NumberKind::NegInt(_) => true,
            NumberKind::Float => false,
        }
    }

    /// The number as an `i64`, where it is an integer that fits.
    pub open spec fn as_i64(self) -> Option<i64> {
        match self.kind {
            NumberKind::PosInt(n) => if n <= i64::MAX {
                Some(n as i64)
            } else {
                None
            },
            NumberKind::NegInt(n) => Some(n),
            NumberKind::Float => None,
        }
    }

    /// The number as a `u64`, where it is a non-negative integer.
    pub open spec fn as_u64(self) -> Option<u64> {
        match self.kind {
            NumberKind::PosInt(n) => Some(n),
            _ => None,
        }
    }
}

/// A value of a document.
#[derive(Debug)]
pub enum Value {
    Null,
    Bool(bool),
    Number(Number),
    String(String),
    Array(Vec<Value>),
    Object(Vec<(String, Value)>),
}

/// The mathematical model of a [`Value`].
pub enum ValueView {
    Null,
    Bool(bool),
    Number(NumberView),
    String(Seq<char>),
    Array(Seq<ValueView>),
    Object(Seq<(Seq<char>, ValueView)>),
}

/// The model of a value.
pub open spec fn value_view(v: Value) -> ValueView
    decreases v,
{
    match v {
        Value::Null => ValueView::Null,
        Value::Bool(b) => ValueView::Bool(b),
        Value::Number(n) => ValueView::Number(n@),
        Value::String(s) => ValueView::String(s@),
        Value::Array(items) => {
            proof {
                broadcast use vstd::std_specs::vec::group_vec_axioms;
                broadcast use vstd::seq::group_seq_axioms;
            }
            ValueView::Array(
                Seq::new(
                    items@.len(),
                    |i: int|
                        if 0 <= i < items@.len() {
                            value_view(items@[i])
                        } else {
                            ValueView::Null
                        },
                ),
            )
        },
        Value::Object(entries) => {
            proof {
                broadcast use vstd::std_specs::vec::group_vec_axioms;
                broadcast use vstd::seq::group_seq_axioms;
            }
            ValueView::Object(
                Seq::new(
                    entries@.len(),
                    |i: int|
                        if 0 <= i < entries@.len() {
                            (entries@[i].0@, value_view(entries@[i].1))
                        } else {
                            (Seq::empty(), ValueView::Null)
                        },
                ),
            )
        },
    }
}

impl View for Value {
    type V = ValueView;

    open spec fn view(&self) -> ValueView {
        value_view(*self)
    }
}

/// Why a value does not match the expected one.
#[derive(Debug)]
pub enum MatchingErrorType {
    NotSameType { actual: Value, expected: Value },
    NotSameValue { actual: Value, expected: Value },
    AdditionalProperty,
    MissingProperty,
}

/// The model of a [`MatchingErrorType`].
pub enum MatchingErrorTypeView {
    NotSameType { actual: ValueView, expected: ValueView },
    NotSameValue { actual: ValueView, expected: ValueView },
    AdditionalProperty,
    MissingProperty,
}

impl View for MatchingErrorType {
    type V = MatchingErrorTypeView;

    open spec fn view(&self) -> MatchingErrorTypeView {
        match *self {
            MatchingErrorType::NotSameType { actual, expected } => MatchingErrorTypeView::NotSameType {
                actual: actual@,
                expected: expected@,
            },
            MatchingErrorType::NotSameValue {
                actual,
                expected,
            } => MatchingErrorTypeView::NotSameValue { actual: actual@, expected: expected@ },
            MatchingErrorType::AdditionalProperty => MatchingErrorTypeView::AdditionalProperty,
            MatchingErrorType::MissingProperty => MatchingErrorTypeView::MissingProperty,
        }
    }
}

/// A difference between a value and the expected one, at a path: the keys and
/// indices that lead to it, joined by dots (empty for the value itself).
#[derive(Debug)]
pub struct MatchingError {
    pub path: String,
    pub error_type: MatchingErrorType,
}

/// The model of a [`MatchingError`].
pub struct MatchingErrorView {
    pub path: Seq<char>,
    pub error_type: MatchingErrorTypeView,
}

impl View for MatchingError {
    type V = MatchingErrorView;

    open spec fn view(&self) -> MatchingErrorView {
        MatchingErrorView { path: self.path@, error_type: self.error_type@ }
    }
}

/// The models of a list of errors.
pub open spec fn errors_view(errs: Seq<MatchingError>) -> Seq<MatchingErrorView> {
    errs.map_values(|e: MatchingError| e@)
}

/// Both values are of the same type.
pub open spec fn same_type(a: ValueView, e: ValueView) -> bool {
    match a {
        ValueView::Null => e is Null,
        ValueView::Bool(_) => e is Bool,
        ValueView::Number(_) => e is Number,
        ValueView::String(_) => e is String,
        ValueView::Array(_) => e is Array,
        ValueView::Object(_) => e is Object,
    }
}

/// The name of a value's type.
pub open spec fn type_name_of(v: ValueView) -> Seq<char> {
    match v {
        ValueView::Null => "null"@,
        ValueView::Bool(_) => "bool"@,
        ValueView::Number(_) => "number"@,
        ValueView::String(_) => "string"@,
        ValueView::Array(_) => "array"@,
        ValueView::Object(_) => "object"@,
    }
}

/// Whether two numbers of different writings are the same number: compared as
/// floats when one is a float, else as `i64` when one fits there, else as
/// `u64`. `None` where one of them cannot be taken as an `i64` though the
/// comparison asks it.
pub open spec fn same_number(n: NumberView, m: NumberView) -> Option<bool> {
    if n.is_f64() || m.is_f64() {
        Some(n.f64_key == m.f64_key)
    } else if n.is_i64() || m.is_i64() {
        match (n.as_i64(), m.as_i64()) {
            (Some(x), Some(y)) => Some(x == y),
            _ => None,
        }
    } else {
        Some(n.as_u64() == m.as_u64())
    }
}

/// The path of an error found inside a member: the member's key, then the
/// inner path after a dot where there is one.
pub open spec fn sub_path(key: Seq<char>, path: Seq<char>) -> Seq<char> {
    if path.len() == 0 {
        key
    } else {
        key + "."@ + path
    }
}

/// Errors found inside a member, with their paths placed under the member's key.
pub open spec fn prefixed(errs: Seq<MatchingErrorView>, key: Seq<char>) -> Seq<MatchingErrorView> {
    errs.map_values(
        |err: MatchingErrorView|
            MatchingErrorView { path: sub_path(key, err.path), error_type: err.error_type },
    )
}

/// One error of the given type for each index from `from` up to `to`.
pub open spec fn index_errors(from: nat, to: nat, t: MatchingErrorTypeView) -> Seq<MatchingErrorView> {
    if from <= to {
        Seq::new(
            (to - from) as nat,
            |i: int| MatchingErrorView { path: decimal((from + i) as nat), error_type: t },
        )
    } else {
        Seq::empty()
    }
}

/// The object has an entry with that key.
pub open spec fn has_key(entries: Seq<(Seq<char>, ValueView)>, k: Seq<char>) -> bool {
    exists|j: int| 0 <= j < entries.len() && entries[j].0 == k
}

/// `j` is the first index of the key in the object.
pub open spec fn is_first_key_index(entries: Seq<(Seq<char>, ValueView)>, k: Seq<char>, j: int) -> bool {
    &&& 0 <= j < entries.len()
    &&& entries[j].0 == k
    &&& forall|l: int| 0 <= l < j ==> entries[l].0 != k
}

/// The first index of the key in the object.
pub open spec fn key_index(entries: Seq<(Seq<char>, ValueView)>, k: Seq<char>) -> int {
    choose|j: int| is_first_key_index(entries, k, j)
}

/// The errors found in the first `n` elements that both arrays have.
pub open spec fn elements_errors(xs: Seq<ValueView>, ys: Seq<ValueView>, n: nat) -> Option<
    Seq<MatchingErrorView>,
>
    decreases xs, n,
{
    if n == 0 {
        Some(Seq::empty())
    } else if n > xs.len() || n > ys.len() {
        None
    } else {
        match elements_errors(xs, ys, (n - 1) as nat) {
            Some(before) => match matching_errors(xs[n - 1], ys[n - 1]) {
                Some(errs) => Some(before + prefixed(errs, decimal((n - 1) as nat))),
                None => None,
            },
            None => None,
        }
    }
}

/// The errors found for the first `n` expected keys: those found in the member
/// under that key, or a missing property.
pub open spec fn expected_keys_errors(
    entries: Seq<(Seq<char>, ValueView)>,
    exp: Seq<(Seq<char>, ValueView)>,
    n: nat,
) -> Option<Seq<MatchingErrorView>>
    decreases entries, n,
{
    if n == 0 {
        Some(Seq::empty())
    } else if n > exp.len() {
        None
    } else {
        match expected_keys_errors(entries, exp, (n - 1) as nat) {
            Some(before) => {
                let key = exp[n - 1].0;
                if has_key(entries, key) {
                    let j = key_index(entries, key);
                    if 0 <= j < entries.len() {
                        match matching_errors(entries[j].1, exp[n - 1].1) {
                            Some(errs) => Some(before + prefixed(errs, key)),
                            None => None,
                        }
                    } else {
                        None
                    }
                } else {
                    Some(
                        before.push(
                            MatchingErrorView {
                                path: key,
                                error_type: MatchingErrorTypeView::MissingProperty,
                            },
                        ),
                    )
                }
            },
            None => None,
        }
    }
}

/// An additional property for each of the first `n` keys of the object that
/// the expected object does not have.
pub open spec fn additional_keys_errors(
    entries: Seq<(Seq<char>, ValueView)>,
    exp: Seq<(Seq<char>, ValueView)>,
    n: nat,
) -> Seq<MatchingErrorView>
    decreases n,
{
    if n == 0 || n > entries.len() {
        Seq::empty()
    } else {
        let before = additional_keys_errors(entries, exp, (n - 1) as nat);
        if has_key(exp, entries[n - 1].0) {
            before
        } else {
            before.push(
                MatchingErrorView {
                    path: entries[n - 1].0,
                    error_type: MatchingErrorTypeView::AdditionalProperty,
                },
            )
        }
    }
}

/// The differences between a value and the expected one. `None` where the
/// comparison of two numbers cannot be made (see [`same_number`]).
pub open spec fn matching_errors(a: ValueView, e: ValueView) -> Option<Seq<MatchingErrorView>>
    decreases a, 0nat,
{
    if a == e {
        Some(Seq::empty())
    } else if !same_type(a, e) {
        Some(
            seq![
                MatchingErrorView {
                    path: Seq::empty(),
                    error_type: MatchingErrorTypeView::NotSameType { actual: a, expected: e },
                },
            ],
        )
    } else {
        match a {
            ValueView::Array(xs) => match e {
                ValueView::Array(ys) => {
                    let common = if xs.len() > ys.len() {
                        ys.len()
                    } else {
                        xs.len()
                    };
                    match elements_errors(xs, ys, common) {
                        Some(errs) => Some(
                            errs + index_errors(
                                common,
                                xs.len(),
                                MatchingErrorTypeView::AdditionalProperty,
                            ) + index_errors(common, ys.len(), MatchingErrorTypeView::MissingProperty),
                        ),
                        None => None,
                    }
                },
                _ => None,
            },
            ValueView::Object(entries) => match e {
                ValueView::Object(exp) => match expected_keys_errors(entries, exp, exp.len()) {
                    Some(errs) => Some(errs + additional_keys_errors(entries, exp, entries.len())),
                    None => None,
                },
                _ => None,
            },
            ValueView::Number(n) => match e {
                ValueView::Number(m) => match same_number(n, m) {
                    Some(true) => Some(Seq::empty()),
                    Some(false) => Some(
                        seq![
                            MatchingErrorView {
                                path: Seq::empty(),
                                error_type: MatchingErrorTypeView::NotSameValue {
                                    actual: a,
                                    expected: e,
                                },
                            },
                        ],
                    ),
                    None => None,
                },
                _ => None,
            },
            ValueView::Null => None,
            _ => Some(
                seq![
                    MatchingErrorView {
                        path: Seq::empty(),
                        error_type: MatchingErrorTypeView::NotSameValue { actual: a, expected: e },
                    },
                ],
            ),
        }
    }
}

} // verus!

verus! {

impl Number {
    /// A copy of the number.
    pub fn clone_number(&self) -> (r: Number)
        ensures
            r@ == self@,
    {
        Number { kind: self.kind, f64_key: self.f64_key, text: self.text.clone() }
    }
}

impl Value {
    /// A deep copy of the value.
    #[verifier::loop_isolation(false)]
    pub fn clone_value(&self) -> (r: Value)
        ensures
            r@ == self@,
        decreases self,
    {
        match self {
            Value::Null => Value::Null,
            Value::Bool(b) => Value::Bool(*b),
            Value::Number(n) => Value::Number(n.clone_number()),
            Value::String(s) => Value::String(s.clone()),
            Value::Array(items) => {
                let mut res: Vec<Value> = Vec::new();
                let mut i: usize = 0;
                while i < items.len()
                    invariant
                        0 <= i <= items.len(),
                        res@.len() == i,
                        forall|j: int| 0 <= j < i ==> (#[trigger] res@[j])@ == items@[j]@,
                    decreases items.len() - i,
                {
                    res.push(items[i].clone_value());
                    i += 1;
                }
                let r = Value::Array(res);
                proof {
                    assert(r@->Array_0 =~= self@->Array_0);
                }
                r
            },
            Value::Object(entries) => {
                let mut res: Vec<(String, Value)> = Vec::new();
                let mut i: usize = 0;
                while i < entries.len()
                    invariant
                        0 <= i <= entries.len(),
                        res@.len() == i,
                        forall|j: int|
                            0 <= j < i ==> (#[trigger] res@[j]).0@ == entries@[j].0@ && res@[j].1@
                                == entries@[j].1@,
                    decreases entries.len() - i,
                {
                    res.push((entries[i].0.clone(), entries[i].1.clone_value()));
                    i += 1;
                }
                let r = Value::Object(res);
                proof {
                    assert(r@->Object_0 =~= self@->Object_0);
                }
                r
            },
        }
    }

    /// Whether two values are equal: same type, and the same contents.
    #[verifier::loop_isolation(false)]
    pub fn eq_value(&self, other: &Value) -> (r: bool)
        ensures
            r == (self@ == other@),
        decreases self,
    {
        match (self, other) {
            (Value::Null, Value::Null) => true,
            (Value::Bool(a), Value::Bool(b)) => *a == *b,
            (Value::Number(a), Value::Number(b)) => {
                a.kind == b.kind && a.f64_key == b.f64_key && a.text == b.text
            },
            (Value::String(a), Value::String(b)) => *a == *b,
            (Value::Array(a), Value::Array(b)) => {
                if a.len() != b.len() {
                    proof {
                        assert(self@->Array_0.len() != other@->Array_0.len());
                    }
                    return false;
                }
                let mut i: usize = 0;
                while i < a.len()
                    invariant
                        0 <= i <= a.len(),
                        a.len() == b.len(),
                        forall|j: int| 0 <= j < i ==> (#[trigger] a@[j])@ == b@[j]@,
                    decreases a.len() - i,
                {
                    if !a[i].eq_value(&b[i]) {
                        proof {

                            assert(self@->Array_0[i as int] != other@->Array_0[i as int]);
                        }
                        return false;
                    }
                    i += 1;
                }
                proof {
                    assert(self@->Array_0 =~= other@->Array_0);
                }
                true
            },
            (Value::Object(a), Value::Object(b)) => {
                if a.len() != b.len() {
                    proof {
                        assert(self@->Object_0.len() != other@->Object_0.len());
                    }
                    return false;
                }
                let mut i: usize = 0;
                while i < a.len()
                    invariant
                        0 <= i <= a.len(),
                        a.len() == b.len(),
                        forall|j: int|
                            0 <= j < i ==> (#[trigger] a@[j]).0@ == b@[j].0@ && a@[j].1@ == b@[j].1@,
                    decreases a.len() - i,
                {
                    if a[i].0 != b[i].0 {
                        proof {
                            assert(self@->Object_0[i as int] != other@->Object_0[i as int]);
                        }
                        return false;
                    }
                    if !a[i].1.eq_value(&b[i].1) {
                        proof {
                            assert(self@->Object_0[i as int] != other@->Object_0[i as int]);
                        }
                        return false;
                    }
                    i += 1;
                }
                proof {
                    assert(self@->Object_0 =~= other@->Object_0);
                }
                true
            },
            _ => false,
        }
    }

    /// Whether the other value is of the same type.
    pub fn match_type(&self, val: &Value) -> (r: bool)
        ensures
            r == same_type(self@, val@),
    {
        match self {
            Value::Null => matches!(val, Value::Null),
            Value::Bool(_) => matches!(val, Value::Bool(_)),
            Value::Number(_) => matches!(val, Value::Number(_)),
            Value::String(_) => matches!(val, Value::String(_)),
            Value::Array(_) => matches!(val, Value::Array(_)),
            Value::Object(_) => matches!(val, Value::Object(_)),
        }
    }

    /// The name of the value's type.
    pub fn value_type_name(&self) -> (r: &'static str)
        ensures
            r@ == type_name_of(self@),
    {
        match self {
            Value::Null => "null",
            Value::Bool(_) => "bool",
            Value::Number(_) => "number",
            Value::String(_) => "string",
            Value::Array(_) => "array",
            Value::Object(_) => "object",
        }
    }
}

} // verus!

verus! {

/// A prefix of the element errors exists wherever the whole does.
proof fn lemma_elements_errors_prefix(xs: Seq<ValueView>, ys: Seq<ValueView>, n: nat, m: nat)
    requires
        m <= n,
        elements_errors(xs, ys, n) is Some,
    ensures
        elements_errors(xs, ys, m) is Some,
    decreases n,
{
    if m < n {
        lemma_elements_errors_prefix(xs, ys, (n - 1) as nat, m);
    }
}

/// A prefix of the expected keys' errors exists wherever the whole does.
proof fn lemma_expected_keys_errors_prefix(
    entries: Seq<(Seq<char>, ValueView)>,
    exp: Seq<(Seq<char>, ValueView)>,
    n: nat,
    m: nat,
)
    requires
        m <= n,
        expected_keys_errors(entries, exp, n) is Some,
    ensures
        expected_keys_errors(entries, exp, m) is Some,
    decreases n,
{
    if m < n {
        lemma_expected_keys_errors_prefix(entries, exp, (n - 1) as nat, m);
    }
}

/// The first index of a key is the one that [`key_index`] picks.
proof fn lemma_key_index(entries: Seq<(Seq<char>, ValueView)>, k: Seq<char>, j: int)
    requires
        is_first_key_index(entries, k, j),
    ensures
        key_index(entries, k) == j,
        has_key(entries, k),
{
    let c = key_index(entries, k);
    assert(is_first_key_index(entries, k, c));
    if c < j {
        assert(entries[c].0 != k);
    } else if c > j {
        assert(entries[j].0 != k);
    }
}

impl NumberKind {
    /// The number is held as a float.
    pub fn is_f64(&self) -> (r: bool)
        ensures
            r == (*self is Float),
    {
        matches!(self, NumberKind::Float)
    }

    /// The number is an integer that fits in an `i64`.
    pub fn is_i64(&self) -> (r: bool)
        ensures
            r == (NumberView { kind: *self, f64_key: 0, text: Seq::empty() }).is_i64(),
    {
        match self {
            NumberKind::PosInt(n) => *n <= i64::MAX as u64,
            NumberKind::NegInt(_) => true,
            NumberKind::Float => false,
        }
    }

    /// The number as an `i64`, where it is an integer that fits.
    pub fn as_i64(&self) -> (r: Option<i64>)
        ensures
            r == (NumberView { kind: *self, f64_key: 0, text: Seq::empty() }).as_i64(),
    {
        match self {
            NumberKind::PosInt(n) => if *n <= i64::MAX as u64 {
                Some(*n as i64)
            } else {
                None
            },
            NumberKind::NegInt(n) => Some(*n),
            NumberKind::Float => None,
        }
    }

    /// The number as a `u64`, where it is a non-negative integer.
    pub fn as_u64(&self) -> (r: Option<u64>)
        ensures
            r == (NumberView { kind: *self, f64_key: 0, text: Seq::empty() }).as_u64(),
    {
        match self {
            NumberKind::PosInt(n) => Some(*n),
            _ => None,
        }
    }
}

impl MatchingErrorType {
    /// A copy of the error type.
    pub fn clone_type(&self) -> (r: MatchingErrorType)
        ensures
            r@ == self@,
    {
        match self {
            MatchingErrorType::NotSameType { actual, expected } => MatchingErrorType::NotSameType {
                actual: actual.clone_value(),
                expected: expected.clone_value(),
            },
            MatchingErrorType::NotSameValue {
                actual,
                expected,
            } => MatchingErrorType::NotSameValue {
                actual: actual.clone_value(),
                expected: expected.clone_value(),
            },
            MatchingErrorType::AdditionalProperty => MatchingErrorType::AdditionalProperty,
            MatchingErrorType::MissingProperty => MatchingErrorType::MissingProperty,
        }
    }
}

/// The path of an error found inside a member.
fn make_sub_path(key: &str, path: &str) -> (r: String)
    ensures
        r@ == sub_path(key@, path@),
{
    if path.is_empty() {
        owned(key)
    } else {
        concat3(key, ".", path)
    }
}

/// Appends the errors found inside a member, with their paths placed under the
/// member's key.
fn push_prefixed(ret: &mut Vec<MatchingError>, errs: &Vec<MatchingError>, key: &str)
    ensures
        errors_view(final(ret)@) == errors_view(old(ret)@) + prefixed(errors_view(errs@), key@),
{
    let ghost init = errors_view(ret@);
    let ghost all = prefixed(errors_view(errs@), key@);
    let mut j: usize = 0;
    while j < errs.len()
        invariant
            0 <= j <= errs.len(),
            all == prefixed(errors_view(errs@), key@),
            all.len() == errs@.len(),
            errors_view(ret@) == init + all.take(j as int),
        decreases errs.len() - j,
    {
        let e = MatchingError {
            path: make_sub_path(key, errs[j].path.as_str()),
            error_type: errs[j].error_type.clone_type(),
        };
        let ghost before = ret@;
        ret.push(e);
        proof {
            assert(errors_view(ret@) =~= errors_view(before).push(e@));
            assert(all.take(j + 1) =~= all.take(j as int).push(all[j as int]));
        }
        j += 1;
    }
    proof {
        assert(all.take(j as int) =~= all);
    }
}

/// Appends one error of the given type for each index from `from` up to `to`.
fn push_index_errors(ret: &mut Vec<MatchingError>, from: usize, to: usize, additional: bool)
    requires
        from <= to,
    ensures
        errors_view(final(ret)@) == errors_view(old(ret)@) + index_errors(
            from as nat,
            to as nat,
            if additional {
                MatchingErrorTypeView::AdditionalProperty
            } else {
                MatchingErrorTypeView::MissingProperty
            },
        ),
{
    let ghost t = if additional {
        MatchingErrorTypeView::AdditionalProperty
    } else {
        MatchingErrorTypeView::MissingProperty
    };
    let ghost init = errors_view(ret@);
    let mut i: usize = from;
    while i < to
        invariant
            from <= i <= to,
            errors_view(ret@) == init + index_errors(from as nat, i as nat, t),
            t == (if additional {
                MatchingErrorTypeView::AdditionalProperty
            } else {
                MatchingErrorTypeView::MissingProperty
            }),
        decreases to - i,
    {
        let error_type = if additional {
            MatchingErrorType::AdditionalProperty
        } else {
            MatchingErrorType::MissingProperty
        };
        let e = MatchingError { path: to_decimal(i), error_type };
        let ghost before = ret@;
        ret.push(e);
        proof {
            assert(errors_view(ret@) =~= errors_view(before).push(e@));
            assert(index_errors(from as nat, (i + 1) as nat, t) =~= index_errors(
                from as nat,
                i as nat,
                t,
            ).push(e@));
        }
        i += 1;
    }
}

/// The first index of a key among the entries of an object.
fn find_key(entries: &Vec<(String, Value)>, key: &String) -> (r: Option<usize>)
    ensures
        match r {
            Some(j) => j < entries@.len() && entries@[j as int].0@ == key@ && forall|l: int|
                0 <= l < j ==> (#[trigger] entries@[l]).0@ != key@,
            None => forall|l: int| 0 <= l < entries@.len() ==> (#[trigger] entries@[l]).0@ != key@,
        },
{
    let mut i: usize = 0;
    while i < entries.len()
        invariant
            0 <= i <= entries.len(),
            forall|l: int| 0 <= l < i ==> (#[trigger] entries@[l]).0@ != key@,
        decreases entries.len() - i,
    {
        if entries[i].0 == *key {
            return Some(i);
        }
        i += 1;
    }
    None
}

} // verus!

verus! {

impl Value {
    /// The differences between this value and the expected one: none where
    /// they are equal; a type difference where their types differ; else, for
    /// arrays, the differences of the elements that both have, then an
    /// additional property for each further element and a missing property
    /// for each further expected element; for objects, the differences under
    /// each expected key (or a missing property), then an additional property
    /// for each key that is not expected; for other values, a value difference.
    #[verifier::loop_isolation(false)]
    pub fn check_match(&self, expected: &Value) -> (res: Vec<MatchingError>)
        requires
            matching_errors(self@, expected@) is Some,
        ensures
            errors_view(res@) == matching_errors(self@, expected@).unwrap(),
        decreases self,
    {
        if self.eq_value(expected) {
            let res: Vec<MatchingError> = Vec::new();
            proof {
                assert(errors_view(res@) =~= Seq::empty());
            }
            return res;
        }
        if !self.match_type(expected) {
            let mut res: Vec<MatchingError> = Vec::new();
            res.push(
                MatchingError {
                    path: String::new(),
                    error_type: MatchingErrorType::NotSameType {
                        actual: self.clone_value(),
                        expected: expected.clone_value(),
                    },
                },
            );
            proof {
                assert(errors_view(res@) =~= matching_errors(self@, expected@).unwrap());
            }
            return res;
        }
        match self {
            Value::Array(array) => {
                let expected_array = match expected {
                    Value::Array(a) => a,
                    _ => {
                        return Vec::new();
                    },
                };
                let ghost xs = self@->Array_0;
                let ghost ys = expected@->Array_0;
                let common = if array.len() > expected_array.len() {
                    expected_array.len()
                } else {
                    array.len()
                };
                let mut res: Vec<MatchingError> = Vec::new();
                proof {
                    assert(errors_view(res@) =~= Seq::empty());
                }
                let mut i: usize = 0;
                while i < common
                    invariant
                        0 <= i <= common,
                        elements_errors(xs, ys, i as nat) is Some,
                        errors_view(res@) == elements_errors(xs, ys, i as nat).unwrap(),
                    decreases common - i,
                {
                    proof {
                        lemma_elements_errors_prefix(xs, ys, common as nat, (i + 1) as nat);
                        assert(xs[i as int] == array@[i as int]@);
                        assert(ys[i as int] == expected_array@[i as int]@);
                    }
                    let errs = array[i].check_match(&expected_array[i]);
                    let key = to_decimal(i);
                    push_prefixed(&mut res, &errs, key.as_str());
                    i += 1;
                }
                push_index_errors(&mut res, common, array.len(), true);
                push_index_errors(&mut res, common, expected_array.len(), false);
                res
            },
            Value::Object(object) => {
                let expected_object = match expected {
                    Value::Object(o) => o,
                    _ => {
                        return Vec::new();
                    },
                };
                let ghost entries = self@->Object_0;
                let ghost exp = expected@->Object_0;
                let mut res: Vec<MatchingError> = Vec::new();
                proof {
                    assert(errors_view(res@) =~= Seq::empty());
                }
                let mut n: usize = 0;
                while n < expected_object.len()
                    invariant
                        0 <= n <= expected_object.len(),
                        expected_keys_errors(entries, exp, n as nat) is Some,
                        errors_view(res@) == expected_keys_errors(entries, exp, n as nat).unwrap(),
                    decreases expected_object.len() - n,
                {
                    proof {
                        lemma_expected_keys_errors_prefix(
                            entries,
                            exp,
                            exp.len(),
                            (n + 1) as nat,
                        );
                    }
                    let key = &expected_object[n].0;
                    match find_key(object, key) {
                        Some(j) => {
                            proof {
                                assert forall|l: int| 0 <= l < j implies entries[l].0 != key@ by {
                                    assert(entries[l].0 == object@[l].0@);
                                }
                                assert(is_first_key_index(entries, key@, j as int));
                                lemma_key_index(entries, key@, j as int);
                                assert(entries[j as int].1 == object@[j as int].1@);
                                assert(exp[n as int].1 == expected_object@[n as int].1@);
                            }
                            let errs = object[j].1.check_match(&expected_object[n].1);
                            push_prefixed(&mut res, &errs, key.as_str());
                        },
                        None => {
                            proof {
                                assert forall|l: int| 0 <= l < entries.len() implies entries[l].0
                                    != key@ by {
                                    assert(entries[l].0 == object@[l].0@);
                                }
                            }
                            let e = MatchingError {
                                path: key.clone(),
                                error_type: MatchingErrorType::MissingProperty,
                            };
                            let ghost before = res@;
                            res.push(e);
                            proof {
                                assert(errors_view(res@) =~= errors_view(before).push(e@));
                            }
                        },
                    }
                    n += 1;
                }
                let ghost keyed = errors_view(res@);
                let mut m: usize = 0;
                while m < object.len()
                    invariant
                        0 <= m <= object.len(),
                        errors_view(res@) == keyed + additional_keys_errors(entries, exp, m as nat),
                    decreases object.len() - m,
                {
                    let key = &object[m].0;
                    let found = find_key(expected_object, key);
                    proof {
                        assert(entries[m as int].0 == key@);
                        if found is Some {
                            let j = found->0 as int;
                            assert(exp[j].0 == expected_object@[j].0@);
                        } else {
                            assert forall|l: int| 0 <= l < exp.len() implies exp[l].0 != key@ by {
                                assert(exp[l].0 == expected_object@[l].0@);
                            }
                        }
                    }
                    if found.is_none() {
                        let e = MatchingError {
                            path: key.clone(),
                            error_type: MatchingErrorType::AdditionalProperty,
                        };
                        let ghost before = res@;
                        res.push(e);
                        proof {
                            assert(errors_view(res@) =~= errors_view(before).push(e@));
                        }
                    }
                    m += 1;
                }
                res
            },
            Value::Number(number) => {
                let expected_number = match expected {
                    Value::Number(m) => m,
                    _ => {
                        return Vec::new();
                    },
                };
                let result = if number.kind.is_f64() || expected_number.kind.is_f64() {
                    number.f64_key == expected_number.f64_key
                } else if number.kind.is_i64() || expected_number.kind.is_i64() {
                    number.kind.as_i64().unwrap() == expected_number.kind.as_i64().unwrap()
                } else {
                    number.kind.as_u64() == expected_number.kind.as_u64()
                };
                let mut res: Vec<MatchingError> = Vec::new();
                if !result {
                    res.push(
                        MatchingError {
                            path: String::new(),
                            error_type: MatchingErrorType::NotSameValue {
                                actual: self.clone_value(),
                                expected: expected.clone_value(),
                            },
                        },
                    );
                }
                proof {
                    assert(errors_view(res@) =~= matching_errors(self@, expected@).unwrap());
                }
                res
            },
            Value::Null => Vec::new(),
            _ => {
                let mut res: Vec<MatchingError> = Vec::new();
                res.push(
                    MatchingError {
                        path: String::new(),
                        error_type: MatchingErrorType::NotSameValue {
                            actual: self.clone_value(),
                            expected: expected.clone_value(),
                        },
                    },
                );
                proof {
                    assert(errors_view(res@) =~= matching_errors(self@, expected@).unwrap());
                }
                res
            },
        }
    }
}

} // verus!

verus! {

/// The value is a scalar: neither an array nor an object.
pub open spec fn is_scalar(v: ValueView) -> bool {
    !(v is Array) && !(v is Object)
}

/// Every value difference among the errors is one between two scalars.
pub open spec fn scalar_differences(errs: Seq<MatchingErrorView>) -> bool {
    forall|i: int|
        0 <= i < errs.len() ==> match #[trigger] errs[i].error_type {
            MatchingErrorTypeView::NotSameValue { actual, expected } => is_scalar(actual)
                && is_scalar(expected),
            _ => true,
        }
}

proof fn lemma_scalar_differences_concat(a: Seq<MatchingErrorView>, b: Seq<MatchingErrorView>)
    requires
        scalar_differences(a),
        scalar_differences(b),
    ensures
        scalar_differences(a + b),
{
    assert forall|i: int| 0 <= i < (a + b).len() implies match #[trigger] (a + b)[i].error_type {
        MatchingErrorTypeView::NotSameValue { actual, expected } => is_scalar(actual) && is_scalar(
            expected,
        ),
        _ => true,
    } by {
        if i < a.len() {
            assert((a + b)[i] == a[i]);
        } else {
            assert((a + b)[i] == b[i - a.len()]);
        }
    }
}

proof fn lemma_scalar_differences_prefixed(errs: Seq<MatchingErrorView>, key: Seq<char>)
    requires
        scalar_differences(errs),
    ensures
        scalar_differences(prefixed(errs, key)),
{
    assert forall|i: int| 0 <= i < prefixed(errs, key).len() implies match #[trigger] prefixed(
        errs,
        key,
    )[i].error_type {
        MatchingErrorTypeView::NotSameValue { actual, expected } => is_scalar(actual) && is_scalar(
            expected,
        ),
        _ => true,
    } by {
        assert(prefixed(errs, key)[i].error_type == errs[i].error_type);
    }
}

proof fn lemma_elements_scalar(xs: Seq<ValueView>, ys: Seq<ValueView>, n: nat)
    requires
        elements_errors(xs, ys, n) is Some,
    ensures
        scalar_differences(elements_errors(xs, ys, n).unwrap()),
    decreases xs, n,
{
    if n > 0 {
        lemma_elements_scalar(xs, ys, (n - 1) as nat);
        lemma_matching_scalar(xs[n - 1], ys[n - 1]);
        let errs = matching_errors(xs[n - 1], ys[n - 1]).unwrap();
        lemma_scalar_differences_prefixed(errs, decimal((n - 1) as nat));
        lemma_scalar_differences_concat(
            elements_errors(xs, ys, (n - 1) as nat).unwrap(),
            prefixed(errs, decimal((n - 1) as nat)),
        );
    }
}

proof fn lemma_keys_scalar(
    entries: Seq<(Seq<char>, ValueView)>,
    exp: Seq<(Seq<char>, ValueView)>,
    n: nat,
)
    requires
        expected_keys_errors(entries, exp, n) is Some,
    ensures
        scalar_differences(expected_keys_errors(entries, exp, n).unwrap()),
    decreases entries, n,
{
    if n > 0 {
        lemma_keys_scalar(entries, exp, (n - 1) as nat);
        let before = expected_keys_errors(entries, exp, (n - 1) as nat).unwrap();
        let key = exp[n - 1].0;
        if has_key(entries, key) {
            let j = key_index(entries, key);
            lemma_matching_scalar(entries[j].1, exp[n - 1].1);
            let errs = matching_errors(entries[j].1, exp[n - 1].1).unwrap();
            lemma_scalar_differences_prefixed(errs, key);
            lemma_scalar_differences_concat(before, prefixed(errs, key));
        } else {
            let missing = MatchingErrorView {
                path: key,
                error_type: MatchingErrorTypeView::MissingProperty,
            };
            assert(scalar_differences(seq![missing]));
            assert(before.push(missing) =~= before + seq![missing]);
            lemma_scalar_differences_concat(before, seq![missing]);
        }
    }
}

proof fn lemma_additional_scalar(
    entries: Seq<(Seq<char>, ValueView)>,
    exp: Seq<(Seq<char>, ValueView)>,
    n: nat,
)
    ensures
        scalar_differences(additional_keys_errors(entries, exp, n)),
    decreases n,
{
    if n > 0 && n <= entries.len() {
        lemma_additional_scalar(entries, exp, (n - 1) as nat);
    }
}

/// A value difference is only ever found between two scalars: arrays and
/// objects are compared member by member.
pub proof fn lemma_matching_scalar(a: ValueView, e: ValueView)
    requires
        matching_errors(a, e) is Some,
    ensures
        scalar_differences(matching_errors(a, e).unwrap()),
    decreases a, 0nat,
{
    if a == e {
    } else if !same_type(a, e) {
    } else {
        match a {
            ValueView::Array(xs) => match e {
                ValueView::Array(ys) => {
                    let common = if xs.len() > ys.len() {
                        ys.len()
                    } else {
                        xs.len()
                    };
                    lemma_elements_scalar(xs, ys, common);
                    let i1 = index_errors(common, xs.len(), MatchingErrorTypeView::AdditionalProperty);
                    let i2 = index_errors(common, ys.len(), MatchingErrorTypeView::MissingProperty);
                    assert(scalar_differences(i1));
                    assert(scalar_differences(i2));
                    lemma_scalar_differences_concat(elements_errors(xs, ys, common).unwrap(), i1);
                    lemma_scalar_differences_concat(
                        elements_errors(xs, ys, common).unwrap() + i1,
                        i2,
                    );
                },
                _ => {},
            },
            ValueView::Object(entries) => match e {
                ValueView::Object(exp) => {
                    lemma_keys_scalar(entries, exp, exp.len());
                    lemma_additional_scalar(entries, exp, entries.len());
                    lemma_scalar_differences_concat(
                        expected_keys_errors(entries, exp, exp.len()).unwrap(),
                        additional_keys_errors(entries, exp, entries.len()),
                    );
                },
                _ => {},
            },
            _ => {},
        }
    }
}

} // verus!

verus! {

// Values of a document, built from their parts.

/// A non-negative integer of a document, with the bits of its float value.
pub open spec fn int_view(n: nat, f64_key: u64) -> ValueView {
    ValueView::Number(NumberView { kind: NumberKind::PosInt(n as u64), f64_key, text: decimal(n) })
}

/// An object of a document.
pub open spec fn obj(entries: Seq<(Seq<char>, ValueView)>) -> ValueView {
    ValueView::Object(entries)
}

/// A text of a document.
pub open spec fn text(s: Seq<char>) -> ValueView {
    ValueView::String(s)
}

/// A non-negative integer of a document, given the bits of its float value.
pub fn int_value(n: u32, f64_key: u64) -> (r: Value)
    ensures
        r@ == int_view(n as nat, f64_key),
{
    let digits = to_decimal(n as usize);
    Value::Number(Number { kind: NumberKind::PosInt(n as u64), f64_key, text: digits })
}

/// A text of a document.
pub fn text_value(s: &str) -> (r: Value)
    ensures
        r@ == text(s@),
{
    Value::String(owned(s))
}

/// An empty object.
pub fn object0() -> (r: Value)
    ensures
        r@ == obj(Seq::empty()),
{
    let r = Value::Object(Vec::new());
    proof {
        assert(r@->Object_0 =~= Seq::<(Seq<char>, ValueView)>::empty());
    }
    r
}

/// An object of 1 entries, in that order.
pub fn object1(k1: &str, v1: Value) -> (r: Value)
    ensures
        r@ == obj(seq![(k1@, v1@)]),
{
    let r = Value::Object(vec![(owned(k1), v1)]);
    proof {
        assert(r@->Object_0 =~= seq![(k1@, v1@)]);
    }
    r
}

/// An object of 2 entries, in that order.
pub fn object2(k1: &str, v1: Value, k2: &str, v2: Value) -> (r: Value)
    ensures
        r@ == obj(seq![(k1@, v1@), (k2@, v2@)]),
{
    let r = Value::Object(vec![(owned(k1), v1), (owned(k2), v2)]);
    proof {
        assert(r@->Object_0 =~= seq![(k1@, v1@), (k2@, v2@)]);
    }
    r
}

/// An object of 3 entries, in that order.
pub fn object3(k1: &str, v1: Value, k2: &str, v2: Value, k3: &str, v3: Value) -> (r: Value)
    ensures
        r@ == obj(seq![(k1@, v1@), (k2@, v2@), (k3@, v3@)]),
{
    let r = Value::Object(vec![(owned(k1), v1), (owned(k2), v2), (owned(k3), v3)]);
    proof {
        assert(r@->Object_0 =~= seq![(k1@, v1@), (k2@, v2@), (k3@, v3@)]);
    }
    r
}

/// An object of 4 entries, in that order.
pub fn object4(
    k1: &str,
    v1: Value,
    k2: &str,
    v2: Value,
    k3: &str,
    v3: Value,
    k4: &str,
    v4: Value,
) -> (r: Value)
    ensures
        r@ == obj(seq![(k1@, v1@), (k2@, v2@), (k3@, v3@), (k4@, v4@)]),
{
    let r = Value::Object(vec![(owned(k1), v1), (owned(k2), v2), (owned(k3), v3), (owned(k4), v4)]);
    proof {
        assert(r@->Object_0 =~= seq![(k1@, v1@), (k2@, v2@), (k3@, v3@), (k4@, v4@)]);
    }
    r
}

/// An object of 6 entries, in that order.
pub fn object6(
    k1: &str,
    v1: Value,
    k2: &str,
    v2: Value,
    k3: &str,
    v3: Value,
    k4: &str,
    v4: Value,
    k5: &str,
    v5: Value,
    k6: &str,
    v6: Value,
) -> (r: Value)
    ensures
        r@ == obj(seq![(k1@, v1@), (k2@, v2@), (k3@, v3@), (k4@, v4@), (k5@, v5@), (k6@, v6@)]),
{
    let r = Value::Object(
        vec![
            (owned(k1), v1),
            (owned(k2), v2),
            (owned(k3), v3),
            (owned(k4), v4),
            (owned(k5), v5),
            (owned(k6), v6),
        ],
    );
    proof {
        assert(r@->Object_0 =~= seq![
            (k1@, v1@),
            (k2@, v2@),
            (k3@, v3@),
            (k4@, v4@),
            (k5@, v5@),
            (k6@, v6@),
        ]);
    }
    r
}

/// An array of two values.
pub fn array2(a: Value, b: Value) -> (r: Value)
    ensures
        r@ == ValueView::Array(seq![a@, b@]),
{
    let r = Value::Array(vec![a, b]);
    proof {
        assert(r@->Array_0 =~= seq![a@, b@]);
    }
    r
}

/// An empty array.
pub fn array0() -> (r: Value)
    ensures
        r@ == ValueView::Array(Seq::empty()),
{
    let r = Value::Array(Vec::new());
    proof {
        assert(r@->Array_0 =~= Seq::<ValueView>::empty());
    }
    r
}

} // verus!

verus! {

/// A value matches itself: comparing it with itself finds no difference.
pub proof fn lemma_matching_reflexive(v: ValueView)
    ensures
        matching_errors(v, v) == Some(Seq::<MatchingErrorView>::empty()),
{
}

/// Values of different types differ by their type alone.
pub proof fn lemma_matching_other_type(a: ValueView, e: ValueView)
    requires
        !same_type(a, e),
    ensures
        matching_errors(a, e) == Some(
            seq![
                MatchingErrorView {
                    path: Seq::empty(),
                    error_type: MatchingErrorTypeView::NotSameType { actual: a, expected: e },
                },
            ],
        ),
{
}

} // verus!

verus! {

// What the comparison of two arrays reports past their common length.

/// The path of an error found inside an element is never the bare index of a
/// later element.
proof fn lemma_sub_path_not_index(j: nat, p: Seq<char>, k: nat)
    requires
        j != k,
    ensures
        sub_path(decimal(j), p) != decimal(k),
{
    lemma_decimal_digits(k);
    if p.len() == 0 {
        if decimal(j) == decimal(k) {
            lemma_decimal_injective(j, k);
        }
    } else {
        let s = decimal(j) + "."@ + p;
        reveal_strlit(".");
        assert(s[decimal(j).len() as int] == '.');
        if s == decimal(k) {
            assert(decimal(k)[decimal(j).len() as int] == '.');
        }
    }
}

/// No error found in the first `n` elements that both arrays have sits at the
/// bare index of an element at `n` or beyond.
proof fn lemma_elements_errors_paths(xs: Seq<ValueView>, ys: Seq<ValueView>, n: nat)
    requires
        elements_errors(xs, ys, n) is Some,
    ensures
        forall|i: int, k: nat|
            #![trigger elements_errors(xs, ys, n)->0[i], decimal(k)]
            0 <= i < elements_errors(xs, ys, n)->0.len() && k >= n ==> elements_errors(
                xs,
                ys,
                n,
            )->0[i].path != decimal(k),
    decreases n,
{
    if n > 0 {
        lemma_elements_errors_paths(xs, ys, (n - 1) as nat);
        let before = elements_errors(xs, ys, (n - 1) as nat)->0;
        let errs = matching_errors(xs[n - 1], ys[n - 1])->0;
        let all = elements_errors(xs, ys, n)->0;
        assert(all == before + prefixed(errs, decimal((n - 1) as nat)));
        assert forall|i: int, k: nat|
            #![trigger all[i], decimal(k)]
            0 <= i < all.len() && k >= n implies all[i].path != decimal(k) by {
            if i < before.len() {
                assert(all[i] == before[i]);
            } else {
                let e = errs[i - before.len()];
                assert(all[i].path == sub_path(decimal((n - 1) as nat), e.path));
                lemma_sub_path_not_index((n - 1) as nat, e.path, k);
            }
        }
    }
}

/// Comparing two arrays of different lengths: each index of the actual array
/// past the expected one's length is an additional property, and each index
/// of the expected array past the actual one's length is a missing property;
/// an error at such an index is never of the other kind.
pub proof fn lemma_array_length_errors(xs: Seq<ValueView>, ys: Seq<ValueView>)
    requires
        matching_errors(ValueView::Array(xs), ValueView::Array(ys)) is Some,
    ensures
        forall|k: nat|
            ys.len() <= k < xs.len() ==> matching_errors(ValueView::Array(xs), ValueView::Array(ys))->0.contains(
                MatchingErrorView {
                    path: #[trigger] decimal(k),
                    error_type: MatchingErrorTypeView::AdditionalProperty,
                },
            ),
        forall|k: nat|
            xs.len() <= k < ys.len() ==> matching_errors(ValueView::Array(xs), ValueView::Array(ys))->0.contains(
                MatchingErrorView {
                    path: #[trigger] decimal(k),
                    error_type: MatchingErrorTypeView::MissingProperty,
                },
            ),
        forall|i: int, k: nat|
            #![trigger matching_errors(ValueView::Array(xs), ValueView::Array(ys))->0[i], decimal(k)]
            0 <= i < matching_errors(ValueView::Array(xs), ValueView::Array(ys))->0.len() && ys.len() <= k
                < xs.len() && matching_errors(ValueView::Array(xs), ValueView::Array(ys))->0[i].path
                == decimal(k) ==> matching_errors(ValueView::Array(xs), ValueView::Array(ys))->0[i].error_type
                is AdditionalProperty,
        forall|i: int, k: nat|
            #![trigger matching_errors(ValueView::Array(xs), ValueView::Array(ys))->0[i], decimal(k)]
            0 <= i < matching_errors(ValueView::Array(xs), ValueView::Array(ys))->0.len() && xs.len() <= k
                < ys.len() && matching_errors(ValueView::Array(xs), ValueView::Array(ys))->0[i].path
                == decimal(k) ==> matching_errors(ValueView::Array(xs), ValueView::Array(ys))->0[i].error_type
                is MissingProperty,
{
    let a = ValueView::Array(xs);
    let e = ValueView::Array(ys);
    if a != e {
        let common: nat = if xs.len() > ys.len() {
            ys.len()
        } else {
            xs.len()
        };
        lemma_elements_errors_paths(xs, ys, common);
        let el = elements_errors(xs, ys, common)->0;
        let add = index_errors(common, xs.len(), MatchingErrorTypeView::AdditionalProperty);
        let miss = index_errors(common, ys.len(), MatchingErrorTypeView::MissingProperty);
        let all = matching_errors(a, e)->0;
        assert(all == el + add + miss);
        assert forall|k: nat| ys.len() <= k < xs.len() implies all.contains(
            MatchingErrorView { path: #[trigger] decimal(k), error_type: MatchingErrorTypeView::AdditionalProperty },
        ) by {
            assert(add[k - common] == MatchingErrorView {
                path: decimal(k),
                error_type: MatchingErrorTypeView::AdditionalProperty,
            });
            assert(all[el.len() + k - common] == add[k - common]);
        }
        assert forall|k: nat| xs.len() <= k < ys.len() implies all.contains(
            MatchingErrorView { path: #[trigger] decimal(k), error_type: MatchingErrorTypeView::MissingProperty },
        ) by {
            assert(miss[k - common] == MatchingErrorView {
                path: decimal(k),
                error_type: MatchingErrorTypeView::MissingProperty,
            });
            assert(all[el.len() + add.len() + k - common] == miss[k - common]);
        }
        assert forall|i: int, k: nat|
            #![trigger all[i], decimal(k)]
            0 <= i < all.len() && ys.len() <= k < xs.len() && all[i].path == decimal(k) implies all[i].error_type
                is AdditionalProperty by {
            if i < el.len() {
                assert(all[i] == el[i]);
            } else {
                assert(miss.len() == 0);
                assert(all[i] == add[i - el.len()]);
            }
        }
        assert forall|i: int, k: nat|
            #![trigger all[i], decimal(k)]
            0 <= i < all.len() && xs.len() <= k < ys.len() && all[i].path == decimal(k) implies all[i].error_type
                is MissingProperty by {
            if i < el.len() {
                assert(all[i] == el[i]);
            } else {
                assert(add.len() == 0);
                assert(all[i] == miss[i - el.len()]);
            }
        }
    }
}

/// A key of the expected object that the actual object lacks is reported as a
/// missing property at that key.
pub proof fn lemma_missing_key_reported(
    entries: Seq<(Seq<char>, ValueView)>,
    exp: Seq<(Seq<char>, ValueView)>,
    key: Seq<char>,
)
    requires
        matching_errors(ValueView::Object(entries), ValueView::Object(exp)) is Some,
        has_key(exp, key),
        !has_key(entries, key),
    ensures
        matching_errors(ValueView::Object(entries), ValueView::Object(exp))->0.contains(
            MatchingErrorView { path: key, error_type: MatchingErrorTypeView::MissingProperty },
        ),
{
    let j = choose|j: int| 0 <= j < exp.len() && exp[j].0 == key;
    if entries == exp {
        assert(entries[j].0 == key);
    }
    assert(ValueView::Object(entries) != ValueView::Object(exp));
    lemma_expected_keys_missing(entries, exp, exp.len(), j);
    let errs = expected_keys_errors(entries, exp, exp.len())->0;
    let all = matching_errors(ValueView::Object(entries), ValueView::Object(exp))->0;
    assert(all == errs + additional_keys_errors(entries, exp, entries.len()));
    let i = choose|i: int|
        0 <= i < errs.len() && errs[i] == MatchingErrorView {
            path: key,
            error_type: MatchingErrorTypeView::MissingProperty,
        };
    assert(all[i] == errs[i]);
}

/// The errors of the first `n` expected keys report each of them that the
/// actual object lacks.
proof fn lemma_expected_keys_missing(
    entries: Seq<(Seq<char>, ValueView)>,
    exp: Seq<(Seq<char>, ValueView)>,
    n: nat,
    m: int,
)
    requires
        expected_keys_errors(entries, exp, n) is Some,
        0 <= m < n,
        !has_key(entries, exp[m].0),
    ensures
        expected_keys_errors(entries, exp, n)->0.contains(
            MatchingErrorView { path: exp[m].0, error_type: MatchingErrorTypeView::MissingProperty },
        ),
    decreases n,
{
    let before = expected_keys_errors(entries, exp, (n - 1) as nat);
    let all = expected_keys_errors(entries, exp, n)->0;
    let want = MatchingErrorView { path: exp[m].0, error_type: MatchingErrorTypeView::MissingProperty };
    if m < n - 1 {
        lemma_expected_keys_missing(entries, exp, (n - 1) as nat, m);
        let i = choose|i: int| 0 <= i < before->0.len() && before->0[i] == want;
        assert(all[i] == before->0[i]);
    } else {
        assert(all == before->0.push(want));
        assert(all[all.len() - 1] == want);
    }
}

} // verus!

verus! {

/// A key of the actual object that the expected object does not have is
/// reported as an additional property at that key.
pub proof fn lemma_extra_key_reported(
    entries: Seq<(Seq<char>, ValueView)>,
    exp: Seq<(Seq<char>, ValueView)>,
    key: Seq<char>,
)
    requires
        matching_errors(ValueView::Object(entries), ValueView::Object(exp)) is Some,
        has_key(entries, key),
        !has_key(exp, key),
    ensures
        matching_errors(ValueView::Object(entries), ValueView::Object(exp))->0.contains(
            MatchingErrorView { path: key, error_type: MatchingErrorTypeView::AdditionalProperty },
        ),
{
    let j = choose|j: int| 0 <= j < entries.len() && entries[j].0 == key;
    if entries == exp {
        assert(exp[j].0 == key);
    }
    assert(ValueView::Object(entries) != ValueView::Object(exp));
    lemma_additional_keys_extra(entries, exp, entries.len(), j);
    let errs = expected_keys_errors(entries, exp, exp.len())->0;
    let add = additional_keys_errors(entries, exp, entries.len());
    let all = matching_errors(ValueView::Object(entries), ValueView::Object(exp))->0;
    assert(all == errs + add);
    let i = choose|i: int|
        0 <= i < add.len() && add[i] == MatchingErrorView {
            path: key,
            error_type: MatchingErrorTypeView::AdditionalProperty,
        };
    assert(all[errs.len() + i] == add[i]);
}

/// The additional properties of the first `n` keys report each of them that
/// the expected object lacks.
proof fn lemma_additional_keys_extra(
    entries: Seq<(Seq<char>, ValueView)>,
    exp: Seq<(Seq<char>, ValueView)>,
    n: nat,
    m: int,
)
    requires
        0 <= m < n <= entries.len(),
        !has_key(exp, entries[m].0),
    ensures
        additional_keys_errors(entries, exp, n).contains(
            MatchingErrorView { path: entries[m].0, error_type: MatchingErrorTypeView::AdditionalProperty },
        ),
    decreases n,
{
    let before = additional_keys_errors(entries, exp, (n - 1) as nat);
    let all = additional_keys_errors(entries, exp, n);
    let want = MatchingErrorView { path: entries[m].0, error_type: MatchingErrorTypeView::AdditionalProperty };
    if m < n - 1 {
        lemma_additional_keys_extra(entries, exp, (n - 1) as nat, m);
        let i = choose|i: int| 0 <= i < before.len() && before[i] == want;
        if has_key(exp, entries[n - 1].0) {
            assert(all == before);
        } else {
            assert(all == before.push(MatchingErrorView {
                path: entries[n - 1].0,
                error_type: MatchingErrorTypeView::AdditionalProperty,
            }));
            assert(all[i] == before[i]);
        }
    } else {
        assert(all == before.push(want));
        assert(all[all.len() - 1] == want);
    }
}

} // verus!
