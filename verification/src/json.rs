//! JSON documents that the library writes as text, for the libraries that
//! read their descriptors from JSON.

use vstd::prelude::*;
use vstd::string::*;

use crate::config::{opt_string_view, strings_view};
use crate::docker_compose::pairs_view;
use crate::dofigen::opt_strings_view;
use crate::text::{decimal, join, json_quoted, json_string_literal, push_char};

verus! {

/// A JSON document made of booleans, non-negative integers, texts, arrays and
/// objects (whose entries keep their order).
#[derive(Debug)]
pub enum Json {
    Bool(bool),
    Int(u64),
    Str(String),
    Arr(Vec<Json>),
    Obj(Vec<(String, Json)>),
}

/// The mathematical model of a [`Json`] document.
pub enum JsonView {
    Bool(bool),
    Int(u64),
    Str(Seq<char>),
    Arr(Seq<JsonView>),
    Obj(Seq<(Seq<char>, JsonView)>),
}

/// The model of a document.
pub open spec fn json_view(j: Json) -> JsonView
    decreases j,
{
    match j {
        Json::Bool(b) => JsonView::Bool(b),
        Json::Int(n) => JsonView::Int(n),
        Json::Str(s) => JsonView::Str(s@),
        Json::Arr(items) => {
            proof {
                broadcast use vstd::std_specs::vec::group_vec_axioms;
                broadcast use vstd::seq::group_seq_axioms;
            }
            JsonView::Arr(
                Seq::new(
                    items@.len(),
                    |i: int|
                        if 0 <= i < items@.len() {
                            json_view(items@[i])
                        } else {
                            JsonView::Bool(false)
                        },
                ),
            )
        },
        Json::Obj(entries) => {
            proof {
                broadcast use vstd::std_specs::vec::group_vec_axioms;
                broadcast use vstd::seq::group_seq_axioms;
            }
            JsonView::Obj(
                Seq::new(
                    entries@.len(),
                    |i: int|
                        if 0 <= i < entries@.len() {
                            (entries@[i].0@, json_view(entries@[i].1))
                        } else {
                            (Seq::empty(), JsonView::Bool(false))
                        },
                ),
            )
        },
    }
}

impl View for Json {
    type V = JsonView;

    open spec fn view(&self) -> JsonView {
        json_view(*self)
    }
}

/// The compact JSON text of a document: no space, the array items and the
/// object entries separated by commas, each key a JSON string.
pub open spec fn json_text(j: JsonView) -> Seq<char>
    decreases j, 1nat,
{
    match j {
        JsonView::Bool(b) => if b {
            "true"@
        } else {
            "false"@
        },
        JsonView::Int(n) => decimal(n as nat),
        JsonView::Str(s) => json_quoted(s),
        JsonView::Arr(items) => "["@ + join(item_texts(items), ","@) + "]"@,
        JsonView::Obj(entries) => "{"@ + join(entry_texts(entries), ","@) + "}"@,
    }
}

/// The texts of the items of an array.
pub open spec fn item_texts(items: Seq<JsonView>) -> Seq<Seq<char>>
    decreases items, 0nat,
{
    Seq::new(
        items.len(),
        |i: int|
            if 0 <= i < items.len() {
                json_text(items[i])
            } else {
                Seq::empty()
            },
    )
}

/// The texts of the entries of an object: each key, a colon and its value.
pub open spec fn entry_texts(entries: Seq<(Seq<char>, JsonView)>) -> Seq<Seq<char>>
    decreases entries, 0nat,
{
    Seq::new(
        entries.len(),
        |i: int|
            if 0 <= i < entries.len() {
                json_quoted(entries[i].0) + ":"@ + json_text(entries[i].1)
            } else {
                Seq::empty()
            },
    )
}

/// Writes a number in decimal, without leading zeros.
pub fn u64_decimal(n: u64) -> (res: String)
    ensures
        res@ == decimal(n as nat),
    decreases n,
{
    if n < 10 {
        let mut s = String::new();
        push_char(&mut s, ((n as u8) + 48) as char);
        s
    } else {
        let mut s = u64_decimal(n / 10);
        push_char(&mut s, (((n % 10) as u8) + 48) as char);
        s
    }
}

impl Json {
    /// Writes the document's JSON text after what `out` holds.
    #[verifier::loop_isolation(false)]
    #[verifier::rlimit(60)]
    pub fn write(&self, out: &mut String)
        ensures
            final(out)@ == old(out)@ + json_text(self@),
        decreases self,
    {
        match self {
            Json::Bool(b) => {
                let word: &str = if *b {
                    "true"
                } else {
                    "false"
                };
                out.append(word);
            },
            Json::Int(n) => {
                let digits = u64_decimal(*n);
                out.append(digits.as_str());
            },
            Json::Str(s) => {
                let quoted = json_string_literal(s.as_str());
                out.append(quoted.as_str());
            },
            Json::Arr(items) => {
                let ghost it = self@->Arr_0;
                let ghost parts = item_texts(it);
                proof {
                    assert(self@ == JsonView::Arr(it));
                }
                out.append("[");
                let ghost start = out@;
                let mut i: usize = 0;
                while i < items.len()
                    invariant
                        0 <= i <= items.len(),
                        parts.len() == items@.len(),
                        out@ == start + join(parts.take(i as int), ","@),
                    decreases items.len() - i,
                {
                    proof {
                        assert(parts.take(i + 1).drop_last() =~= parts.take(i as int));
                        assert(parts[i as int] == json_text(items@[i as int]@));
                    }
                    if i != 0 {
                        out.append(",");
                    } else {
                        proof {
                            assert(parts.take(0) =~= Seq::<Seq<char>>::empty());
                        }
                    }
                    items[i].write(out);
                    proof {
                        assert(parts.take(i + 1).last() == parts[i as int]);
                    }
                    i += 1;
                }
                proof {
                    assert(parts.take(i as int) =~= parts);
                    assert(json_text(JsonView::Arr(it)) == "["@ + join(parts, ","@) + "]"@);
                }
                out.append("]");
                proof {
                    assert(out@ =~= old(out)@ + json_text(self@));
                }
            },
            Json::Obj(entries) => {
                let ghost es = self@->Obj_0;
                let ghost parts = entry_texts(es);
                proof {
                    assert(self@ == JsonView::Obj(es));
                }
                out.append("{");
                let ghost start = out@;
                let mut i: usize = 0;
                while i < entries.len()
                    invariant
                        0 <= i <= entries.len(),
                        parts.len() == entries@.len(),
                        out@ == start + join(parts.take(i as int), ","@),
                    decreases entries.len() - i,
                {
                    proof {
                        assert(parts.take(i + 1).drop_last() =~= parts.take(i as int));
                        assert(parts[i as int] == json_quoted(entries@[i as int].0@) + ":"@
                            + json_text(entries@[i as int].1@));
                    }
                    if i != 0 {
                        out.append(",");
                    } else {
                        proof {
                            assert(parts.take(0) =~= Seq::<Seq<char>>::empty());
                        }
                    }
                    let key = json_string_literal(entries[i].0.as_str());
                    out.append(key.as_str());
                    out.append(":");
                    entries[i].1.write(out);
                    proof {
                        assert(parts.take(i + 1).last() == parts[i as int]);
                    }
                    i += 1;
                }
                proof {
                    assert(parts.take(i as int) =~= parts);
                    assert(json_text(JsonView::Obj(es)) == "{"@ + join(parts, ","@) + "}"@);
                }
                out.append("}");
                proof {
                    assert(out@ =~= old(out)@ + json_text(self@));
                }
            },
        }
    }

    /// The document's JSON text.
    pub fn to_text(&self) -> (r: String)
        ensures
            r@ == json_text(self@),
    {
        let mut out = String::new();
        self.write(&mut out);
        proof {
            assert(out@ =~= Seq::<char>::empty() + json_text(self@));
        }
        out
    }
}

// Documents built from their parts.

/// The models of the entries of an object.
pub open spec fn entries_view(e: Seq<(String, Json)>) -> Seq<(Seq<char>, JsonView)> {
    e.map_values(|p: (String, Json)| (p.0@, p.1@))
}

/// An entry where there is a value, none where there is none.
pub open spec fn opt_entry(key: Seq<char>, value: Option<JsonView>) -> Seq<(Seq<char>, JsonView)> {
    match value {
        Some(v) => seq![(key, v)],
        None => Seq::empty(),
    }
}

/// An array of texts.
pub open spec fn texts_json(v: Seq<Seq<char>>) -> JsonView {
    JsonView::Arr(v.map_values(|s: Seq<char>| JsonView::Str(s)))
}

/// A text, where there is one.
pub open spec fn opt_text_json(o: Option<Seq<char>>) -> Option<JsonView> {
    match o {
        Some(s) => Some(JsonView::Str(s)),
        None => None,
    }
}

/// An array of texts, where there is one.
pub open spec fn opt_texts_json(o: Option<Seq<Seq<char>>>) -> Option<JsonView> {
    match o {
        Some(v) => Some(texts_json(v)),
        None => None,
    }
}

/// An object of text values, in the order of the pairs.
pub open spec fn text_pairs_json(v: Seq<(Seq<char>, Seq<char>)>) -> JsonView {
    JsonView::Obj(v.map_values(|p: (Seq<char>, Seq<char>)| (p.0, JsonView::Str(p.1))))
}

/// The object of these entries.
pub fn object(entries: Vec<(String, Json)>) -> (r: Json)
    ensures
        r@ == JsonView::Obj(entries_view(entries@)),
{
    let ghost e = entries@;
    let r = Json::Obj(entries);
    proof {
        assert(r@->Obj_0 =~= entries_view(e));
    }
    r
}

/// Adds an entry after the others.
pub fn push_entry(entries: &mut Vec<(String, Json)>, key: &str, value: Json)
    ensures
        entries_view(final(entries)@) == entries_view(old(entries)@) + seq![(key@, value@)],
{
    entries.push((key.to_owned(), value));
    proof {
        assert(entries_view(final(entries)@) =~= entries_view(old(entries)@) + seq![(key@, value@)]);
    }
}

/// Adds an entry after the others where there is a text.
pub fn push_opt_text(entries: &mut Vec<(String, Json)>, key: &str, value: &Option<String>)
    ensures
        entries_view(final(entries)@) == entries_view(old(entries)@) + opt_entry(
            key@,
            opt_text_json(opt_string_view(*value)),
        ),
{
    match value {
        Some(s) => push_entry(entries, key, Json::Str(s.clone())),
        None => {
            proof {
                assert(entries_view(old(entries)@) + Seq::empty() =~= entries_view(old(entries)@));
            }
        },
    }
}

/// An array of texts.
pub fn texts(v: &Vec<String>) -> (r: Json)
    ensures
        r@ == texts_json(strings_view(v@)),
{
    let mut items: Vec<Json> = Vec::new();
    let mut i: usize = 0;
    while i < v.len()
        invariant
            0 <= i <= v.len(),
            items@.len() == i,
            forall|j: int| 0 <= j < i ==> (#[trigger] items@[j])@ == JsonView::Str(v@[j]@),
        decreases v.len() - i,
    {
        items.push(Json::Str(v[i].clone()));
        i += 1;
    }
    let r = Json::Arr(items);
    proof {
        assert(r@->Arr_0 =~= texts_json(strings_view(v@))->Arr_0);
    }
    r
}

/// Adds an entry after the others where there is an array of texts.
pub fn push_opt_texts(entries: &mut Vec<(String, Json)>, key: &str, value: &Option<Vec<String>>)
    ensures
        entries_view(final(entries)@) == entries_view(old(entries)@) + opt_entry(
            key@,
            opt_texts_json(opt_strings_view(*value)),
        ),
{
    match value {
        Some(v) => push_entry(entries, key, texts(v)),
        None => {
            proof {
                assert(entries_view(old(entries)@) + Seq::empty() =~= entries_view(old(entries)@));
            }
        },
    }
}

/// An object of text values, in the order of the pairs.
pub fn text_pairs(v: &Vec<(String, String)>) -> (r: Json)
    ensures
        r@ == text_pairs_json(pairs_view(v@)),
{
    let mut entries: Vec<(String, Json)> = Vec::new();
    let mut i: usize = 0;
    while i < v.len()
        invariant
            0 <= i <= v.len(),
            entries@.len() == i,
            forall|j: int|
                0 <= j < i ==> (#[trigger] entries@[j]).0@ == v@[j].0@ && entries@[j].1@
                    == JsonView::Str(v@[j].1@),
        decreases v.len() - i,
    {
        entries.push((v[i].0.clone(), Json::Str(v[i].1.clone())));
        i += 1;
    }
    let r = Json::Obj(entries);
    proof {
        assert(r@->Obj_0 =~= text_pairs_json(pairs_view(v@))->Obj_0);
    }
    r
}

} // verus!
