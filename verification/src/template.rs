//! App templates: their names, the search of their repositories, and the file
//! that keeps which template and commit an app comes from.

use vstd::prelude::*;
use vstd::string::*;

use crate::errors::Error;
use crate::git::Repository;
use crate::github::is_github_topic;
use crate::patterns::{
    github_topic, regex_is_match, regex_replace, short_template, short_template_name,
    TEMPLATE_NAME_REPLACEMENT, TEMPLATE_SHORT_PATTERN,
};
use crate::text::{concat2, concat3, decimal, owned, push_char, split_char, split_on, to_decimal};

verus! {

/// The file that keeps the template and commit an app comes from.
pub const TEMPLATE_DATA_FILE: &'static str = ".template";

/// The directory, in the cache, of the template's repository.
pub const TEMPLATE_GIT_DIR: &'static str = "template.git";

/// The directory, in the cache, where the template is cloned first.
pub const TEMPLATE_TEMP_DIR: &'static str = "template.tmp";

/// The question asked to choose among templates.
pub const RL_CHOOSE_TEMPLATE_MSG: &'static str = "Which template do you want to use ? ";

/// The URL of the Lenra templates, without their names.
pub const TEMPLATE_URL_PREFIX: &'static str = "https://github.com/lenra-io/template-";

/// The template and commit an app comes from.
#[derive(Debug)]
pub struct TemplateData {
    pub template: String,
    pub commit: Option<String>,
}

// Template names.

/// The template's name, its alias replaced by the full name.
pub open spec fn template_alias(t: Seq<char>) -> Seq<char> {
    if t == "js"@ {
        "javascript"@
    } else if t == "ts"@ {
        "typescript"@
    } else if t == "rs"@ {
        "rust"@
    } else if t == "py"@ {
        "python"@
    } else {
        t
    }
}

/// The template that a name designates: a short name (with or without the
/// `template-` prefix, or an alias) designates a Lenra template; anything else
/// is kept as it is.
pub open spec fn normalized_template(t: Seq<char>) -> Seq<char> {
    if short_template(t) {
        TEMPLATE_URL_PREFIX@ + short_template_name(template_alias(t))
    } else {
        t
    }
}

/// Replaces an alias by the full name of the template.
fn template_alias_of(template: &str) -> (r: &str)
    ensures
        r@ == template_alias(template@),
{
    proof {
        reveal_strlit("js");
        reveal_strlit("ts");
        reveal_strlit("rs");
        reveal_strlit("py");
    }
    if template.unicode_len() == 2 {
        let a = template.get_char(0);
        let b = template.get_char(1);
        proof {
            assert(template@ =~= seq![a, b]);
            assert("js"@ =~= seq!['j', 's']);
            assert("ts"@ =~= seq!['t', 's']);
            assert("rs"@ =~= seq!['r', 's']);
            assert("py"@ =~= seq!['p', 'y']);
        }
        if a == 'j' && b == 's' {
            return "javascript";
        } else if a == 't' && b == 's' {
            return "typescript";
        } else if a == 'r' && b == 's' {
            return "rust";
        } else if a == 'p' && b == 'y' {
            return "python";
        }
    }
    template
}

/// The template that a name designates: the URL of a Lenra template for a
/// short name, the name itself otherwise.
pub fn normalize_template(template: String) -> (r: String)
    ensures
        r@ == normalized_template(template@),
{
    if regex_is_match(TEMPLATE_SHORT_PATTERN, template.as_str()) {
        let name = template_alias_of(template.as_str());
        proof {
            lemma_alias_is_short(template@);
        }
        let short = regex_replace(TEMPLATE_SHORT_PATTERN, name, TEMPLATE_NAME_REPLACEMENT);
        concat2(TEMPLATE_URL_PREFIX, short.as_str())
    } else {
        template
    }
}

/// The alias of a short name is a short name.
proof fn lemma_alias_is_short(t: Seq<char>)
    requires
        short_template(t),
    ensures
        short_template(template_alias(t)),
{
    reveal_strlit("js");
    reveal_strlit("ts");
    reveal_strlit("rs");
    reveal_strlit("py");
    reveal_strlit("javascript");
    reveal_strlit("typescript");
    reveal_strlit("rust");
    reveal_strlit("python");
    let a = template_alias(t);
    if a != t {
        assert(crate::patterns::template_word(a));
    }
}

// The template data file.

/// The content of the template data file: the template, then the commit on the
/// next line.
pub open spec fn template_file_content(template: Seq<char>, commit: Seq<char>) -> Seq<char> {
    template + "\n"@ + commit
}

impl TemplateData {
    /// A copy of the template data.
    pub fn clone_data(&self) -> (r: TemplateData)
        ensures
            r.template@ == self.template@,
            crate::config::opt_string_view(r.commit) == crate::config::opt_string_view(self.commit),
    {
        TemplateData {
            template: self.template.clone(),
            commit: crate::config::clone_opt_string(&self.commit),
        }
    }

    /// The content of the template data file; the commit must be known.
    pub fn file_content(&self) -> (r: String)
        requires
            self.commit is Some,
        ensures
            r@ == template_file_content(self.template@, self.commit->0@),
    {
        let commit = match &self.commit {
            Some(c) => c,
            None => {
                return String::new();
            },
        };
        concat3(self.template.as_str(), "\n", commit.as_str())
    }

    /// Reads the template data file: the template on the first line, the
    /// commit on the second; the file has at least two lines.
    pub fn parse(content: &str) -> (r: TemplateData)
        requires
            split_char(content@, '\n').len() >= 2,
        ensures
            r.template@ == split_char(content@, '\n')[0],
            r.commit matches Some(c) && c@ == split_char(content@, '\n')[1],
    {
        let lines = split_on(content, '\n');
        proof {
            assert(lines@[0]@ == split_char(content@, '\n')[0]);
            assert(lines@[1]@ == split_char(content@, '\n')[1]);
        }
        TemplateData { template: lines[0].clone(), commit: Some(lines[1].clone()) }
    }

    /// The template data found where it can be: in the template data file, from
    /// the URL the template's repository was cloned from (commit unknown), or
    /// from the template name the user typed (commit unknown).
    pub fn from_source(source: &TemplateDataSource) -> (r: TemplateData)
        requires
            source matches TemplateDataSource::File(content) ==> split_char(content@, '\n').len()
                >= 2,
        ensures
            match *source {
                TemplateDataSource::File(content) => {
                    &&& r.template@ == split_char(content@, '\n')[0]
                    &&& r.commit matches Some(c) && c@ == split_char(content@, '\n')[1]
                },
                TemplateDataSource::GitRemote(url) => r.template@ == url@ && r.commit is None,
                TemplateDataSource::Typed(name) => r.template@ == normalized_template(name@)
                    && r.commit is None,
            },
    {
        match source {
            TemplateDataSource::File(content) => TemplateData::parse(content.as_str()),
            TemplateDataSource::GitRemote(url) => TemplateData { template: url.clone(), commit: None },
            TemplateDataSource::Typed(name) => TemplateData {
                template: normalize_template(name.clone()),
                commit: None,
            },
        }
    }
}

/// Where the template data comes from.
#[derive(Debug)]
pub enum TemplateDataSource {
    /// The content of the template data file.
    File(String),
    /// The URL the template's repository in the cache was cloned from.
    GitRemote(String),
    /// The template name the user typed.
    Typed(String),
}

/// A text without line feeds is a single line.
proof fn lemma_split_no_sep(s: Seq<char>, sep: char)
    requires
        !s.contains(sep),
    ensures
        split_char(s, sep) == seq![s],
    decreases s.len(),
{
    if s.len() == 0 {
        assert(s =~= Seq::<char>::empty());
    } else {
        assert(!s.drop_last().contains(sep)) by {
            if s.drop_last().contains(sep) {
                let i = choose|i: int| 0 <= i < s.drop_last().len() && s.drop_last()[i] == sep;
                assert(s[i] == sep);
            }
        }
        lemma_split_no_sep(s.drop_last(), sep);
        assert(s.last() != sep) by {
            assert(s[s.len() - 1] == s.last());
        }
        assert(s.drop_last().push(s.last()) =~= s);
    }
}

/// The pieces of a text that ends with a piece without the separator: those of
/// the head, the last of them followed by that piece.
proof fn lemma_split_append(a: Seq<char>, b: Seq<char>, sep: char)
    requires
        !b.contains(sep),
    ensures
        split_char(a + b, sep).len() == split_char(a, sep).len(),
        split_char(a + b, sep).drop_last() == split_char(a, sep).drop_last(),
        split_char(a + b, sep).last() == split_char(a, sep).last() + b,
    decreases b.len(),
{
    crate::text::lemma_split_char_len(a, sep);
    if b.len() == 0 {
        assert(a + b =~= a);
        assert(split_char(a, sep).last() + b =~= split_char(a, sep).last());
    } else {
        let b0 = b.drop_last();
        assert(!b0.contains(sep)) by {
            if b0.contains(sep) {
                let i = choose|i: int| 0 <= i < b0.len() && b0[i] == sep;
                assert(b[i] == sep);
            }
        }
        assert(b.last() != sep) by {
            assert(b[b.len() - 1] == b.last());
        }
        lemma_split_append(a, b0, sep);
        crate::text::lemma_split_char_len(a + b0, sep);
        assert((a + b).drop_last() =~= a + b0);
        assert((a + b).last() == b.last());
        let before = split_char(a + b0, sep);
        assert(split_char(a + b, sep) == before.update(
            before.len() - 1,
            before.last().push(b.last()),
        ));
        assert(split_char(a, sep).last() + b =~= (split_char(a, sep).last() + b0).push(b.last()));
        assert(split_char(a + b, sep).drop_last() =~= before.drop_last());
    }
}

/// What the template data file holds is read back: the template and the
/// commit, where neither holds a line feed.
pub proof fn lemma_template_file_round_trip(template: Seq<char>, commit: Seq<char>)
    requires
        !template.contains('\n'),
        !commit.contains('\n'),
    ensures
        split_char(template_file_content(template, commit), '\n').len() >= 2,
        split_char(template_file_content(template, commit), '\n')[0] == template,
        split_char(template_file_content(template, commit), '\n')[1] == commit,
{
    reveal_strlit("\n");
    let head = template + "\n"@;
    lemma_split_no_sep(template, '\n');
    assert(head.drop_last() =~= template);
    assert(head.last() == '\n');
    assert(split_char(head, '\n') == seq![template].push(Seq::<char>::empty()));
    lemma_split_append(head, commit, '\n');
    let whole = split_char(head + commit, '\n');
    assert(template_file_content(template, commit) == head + commit);
    assert(whole.len() == 2);
    assert(whole.drop_last()[0] == template);
    assert(whole[0] == whole.drop_last()[0]);
    assert(Seq::<char>::empty() + commit =~= commit);
    assert(whole[1] == whole.last());
}

// The search of templates.

/// The query of the template search: the Lenra templates with all the topics,
/// or the first topic that is not a valid GitHub topic.
pub open spec fn templates_query(topics: Seq<Seq<char>>) -> Result<Seq<char>, Seq<char>>
    decreases topics.len(),
{
    if topics.len() == 0 {
        Ok("topic:lenra+topic:template"@)
    } else {
        match templates_query(topics.drop_last()) {
            Ok(q) => if github_topic(topics.last()) {
                Ok(q + "+topic:"@ + topics.last())
            } else {
                Err(topics.last())
            },
            Err(t) => Err(t),
        }
    }
}

/// The query of the search of the templates with these topics; an invalid
/// topic is an error.
pub fn templates_search_query(topics: &Vec<String>) -> (r: Result<String, Error>)
    ensures
        match templates_query(topics@.map_values(|t: String| t@)) {
            Ok(q) => r matches Ok(s) && s@ == q,
            Err(t) => r matches Err(Error::InvalidGitHubTopic(s)) && s@ == t,
        },
{
    let ghost ts = topics@.map_values(|t: String| t@);
    let mut query = owned("topic:lenra+topic:template");
    let mut i: usize = 0;
    proof {
        assert(ts.take(0) =~= Seq::<Seq<char>>::empty());
    }
    while i < topics.len()
        invariant
            0 <= i <= topics.len(),
            ts == topics@.map_values(|t: String| t@),
            templates_query(ts.take(i as int)) == Ok::<Seq<char>, Seq<char>>(query@),
        decreases topics.len() - i,
    {
        let topic = &topics[i];
        proof {
            assert(ts.take(i + 1).drop_last() =~= ts.take(i as int));
            assert(ts.take(i + 1).last() == topic@);
        }
        if !is_github_topic(topic.as_str()) {
            proof {
                lemma_query_error_stays(ts, (i + 1) as nat, topic@);
            }
            return Err(Error::InvalidGitHubTopic(topic.clone()));
        }
        query.append("+topic:");
        query.append(topic.as_str());
        i += 1;
    }
    proof {
        assert(ts.take(i as int) =~= ts);
    }
    Ok(query)
}

/// A topic found invalid in a prefix is the error of the whole query.
proof fn lemma_query_error_stays(ts: Seq<Seq<char>>, n: nat, t: Seq<char>)
    requires
        n <= ts.len(),
        templates_query(ts.take(n as int)) == Err::<Seq<char>, Seq<char>>(t),
    ensures
        templates_query(ts) == Err::<Seq<char>, Seq<char>>(t),
    decreases ts.len() - n,
{
    if n == ts.len() {
        assert(ts.take(n as int) =~= ts);
    } else {
        assert(ts.take(n + 1 as int).drop_last() =~= ts.take(n as int));
        lemma_query_error_stays(ts, n + 1, t);
    }
}

// The choice of a template.

/// The spaces that pad a text to the given width.
pub open spec fn padded(s: Seq<char>, width: nat) -> Seq<char> {
    s + Seq::new(if s.len() < width { (width - s.len()) as nat } else { 0 }, |i: int| ' ')
}

/// The line that offers a repository among the templates: its number from 1,
/// its name, its stars and its description.
pub open spec fn repository_line(index: nat, repo: Repository) -> Seq<char> {
    padded("["@ + decimal(index + 1) + "]:"@, 5) + " "@ + repo.name@ + " ("@ + decimal(
        repo.stars as nat,
    ) + " stars) - "@ + repo.description@
}

/// The line that offers the repository at that index among the templates.
pub fn repository_choice_line(index: usize, repo: &Repository) -> (r: String)
    requires
        index < usize::MAX,
    ensures
        r@ == repository_line(index as nat, *repo),
{
    let number = to_decimal(index + 1);
    let mut label = concat3("[", number.as_str(), "]:");
    let ghost l0 = label@;
    let n = label.as_str().unicode_len();
    let mut k: usize = n;
    while k < 5
        invariant
            n == l0.len(),
            n <= k <= 5 || (n > 5 && k == n),
            label@ == l0 + Seq::new((k - n) as nat, |i: int| ' '),
        decreases 5 - k,
    {
        push_char(&mut label, ' ');
        proof {
            assert(label@ =~= l0 + Seq::new((k + 1 - n) as nat, |i: int| ' '));
        }
        k += 1;
    }
    proof {
        assert(label@ =~= padded(l0, 5));
    }
    label.append(" ");
    label.append(repo.name.as_str());
    label.append(" (");
    let stars = to_decimal(repo.stars as usize);
    label.append(stars.as_str());
    label.append(" stars) - ");
    label.append(repo.description.as_str());
    label
}

/// The value of a writing in decimal digits.
pub open spec fn digits_value(d: Seq<char>) -> nat
    decreases d.len(),
{
    if d.len() == 0 {
        0
    } else {
        digits_value(d.drop_last()) * 10 + ((d.last() as nat) - 48) as nat
    }
}

/// A writing made of decimal digits only.
pub open spec fn all_digits(d: Seq<char>) -> bool {
    forall|i: int| 0 <= i < d.len() ==> '0' <= #[trigger] d[i] <= '9'
}

/// What `usize::from_str` reads: an optional `+`, then at least one decimal
/// digit, the value fitting in a `usize`.
pub open spec fn parsed_usize(s: Seq<char>) -> Option<nat> {
    let d = if s.len() > 0 && s[0] == '+' {
        s.skip(1)
    } else {
        s
    };
    if d.len() > 0 && all_digits(d) && digits_value(d) <= usize::MAX {
        Some(digits_value(d))
    } else {
        None
    }
}

/// The value of digits grows with each further digit.
proof fn lemma_digits_value_grows(d: Seq<char>, k: int)
    requires
        0 <= k <= d.len(),
        all_digits(d),
    ensures
        digits_value(d.take(k)) <= digits_value(d),
    decreases d.len() - k,
{
    if k < d.len() {
        lemma_digits_value_grows(d, k + 1);
        assert(d.take(k + 1).drop_last() =~= d.take(k));
        assert('0' <= d[k] <= '9');
    } else {
        assert(d.take(k) =~= d);
    }
}

/// Reads a number the way `usize::from_str` does.
pub fn parse_usize(s: &str) -> (r: Option<usize>)
    ensures
        match parsed_usize(s@) {
            Some(n) => r == Some(n as usize),
            None => r is None,
        },
{
    let len = s.unicode_len();
    let mut start: usize = 0;
    if len > 0 && s.get_char(0) == '+' {
        start = 1;
    }
    let ghost d = if s@.len() > 0 && s@[0] == '+' {
        s@.skip(1)
    } else {
        s@
    };
    proof {
        assert(d =~= s@.skip(start as int));
    }
    if start == len {
        return None;
    }
    let mut value: usize = 0;
    let mut i: usize = start;
    while i < len
        invariant
            len == s@.len(),
            start <= i <= len,
            d == s@.skip(start as int),
            d == (if s@.len() > 0 && s@[0] == '+' {
                s@.skip(1)
            } else {
                s@
            }),
            all_digits(d.take(i - start)),
            value == digits_value(d.take(i - start)),
        decreases len - i,
    {
        let c = s.get_char(i);
        proof {
            assert(d[i - start] == c);
            assert(d.take(i + 1 - start).drop_last() =~= d.take(i - start));
            assert(d.take(i + 1 - start).last() == c);
        }
        if !('0' <= c && c <= '9') {
            proof {
                assert(!all_digits(d));
                assert(parsed_usize(s@) is None);
            }
            return None;
        }
        let digit = (c as u32 - 48) as usize;
        let next = match value.checked_mul(10) {
            Some(v) => v.checked_add(digit),
            None => None,
        };
        match next {
            Some(v) => {
                value = v;
            },
            None => {
                proof {
                    let k = i + 1 - start;
                    assert(all_digits(d.take(k)));
                    assert(digits_value(d.take(k)) == value * 10 + digit);
                    assert(digits_value(d.take(k)) > usize::MAX);
                    if all_digits(d) {
                        lemma_digits_value_grows(d, k);
                    }
                    assert(parsed_usize(s@) is None);
                }
                return None;
            },
        }
        i += 1;
    }
    proof {
        assert(d.take(i - start) =~= d);
    }
    Some(value)
}

/// The repository chosen by its number, where the answer is one of the
/// numbers offered.
pub open spec fn chosen_index(answer: Seq<char>, count: nat) -> Option<nat> {
    match parsed_usize(answer) {
        Some(n) => if 1 <= n <= count {
            Some((n - 1) as nat)
        } else {
            None
        },
        None => None,
    }
}

/// The index of the repository chosen by the answer, where it is one of the
/// numbers offered (from 1 to the number of repositories).
pub fn choice_index(answer: &str, count: usize) -> (r: Option<usize>)
    ensures
        match chosen_index(answer@, count as nat) {
            Some(i) => r == Some(i as usize),
            None => r is None,
        },
{
    match parse_usize(answer) {
        Some(n) => if 1 <= n && n <= count {
            Some(n - 1)
        } else {
            None
        },
        None => None,
    }
}

/// The template chosen among the repositories: the one of the given number.
pub fn choose_repository(repos: &Vec<Repository>, answer: &str) -> (r: Option<Repository>)
    ensures
        match chosen_index(answer@, repos@.len()) {
            Some(i) => r matches Some(repo) && repo.url@ == repos@[i as int].url@ && repo.name@
                == repos@[i as int].name@ && repo.description@ == repos@[i as int].description@
                && repo.stars == repos@[i as int].stars,
            None => r is None,
        },
{
    match choice_index(answer, repos.len()) {
        Some(i) => Some(repos[i].clone_repository()),
        None => None,
    }
}

} // verus!

verus! {

/// A decimal writing is made of digits and reads back as its number.
proof fn lemma_decimal_digits(n: nat)
    ensures
        decimal(n).len() > 0,
        all_digits(decimal(n)),
        digits_value(decimal(n)) == n,
    decreases n,
{
    if n >= 10 {
        lemma_decimal_digits(n / 10);
        let d = decimal(n);
        let prev = decimal(n / 10);
        assert(d.drop_last() =~= prev);
        assert forall|i: int| 0 <= i < d.len() implies '0' <= #[trigger] d[i] <= '9' by {
            if i < prev.len() {
                assert(d[i] == prev[i]);
            }
        }
        assert(d.last() == crate::text::decimal_digit(n % 10));
        assert((d.last() as nat) == 48 + n % 10);
        assert((n / 10) * 10 + n % 10 == n) by (nonlinear_arith);
        assert(digits_value(d) == digits_value(d.drop_last()) * 10 + (((d.last() as nat) - 48) as nat));
        assert(digits_value(d) == (n / 10) * 10 + n % 10);
    } else {
        let d = decimal(n);
        assert(d.drop_last() =~= Seq::<char>::empty());
        assert((d.last() as nat) == 48 + n);
        assert(digits_value(d) == digits_value(d.drop_last()) * 10 + (((d.last() as nat) - 48) as nat));
        assert(digits_value(d.drop_last()) == 0);
    }
}

/// The number written on the line of a repository chooses that repository:
/// typing the number shown for the repository at an index gives that index.
pub proof fn lemma_choice_of_shown_number(index: nat, count: nat)
    requires
        index < count,
        count <= usize::MAX,
    ensures
        chosen_index(decimal(index + 1), count) == Some(index),
{
    lemma_decimal_digits(index + 1);
    let d = decimal(index + 1);
    assert('0' <= d[0] <= '9');
    assert(d[0] != '+');
}

/// The URL of a Lenra template is no short name: normalizing a template twice
/// gives the template of normalizing it once.
pub proof fn lemma_normalize_template_idempotent(t: Seq<char>)
    ensures
        normalized_template(normalized_template(t)) == normalized_template(t),
{
    if short_template(t) {
        let u = normalized_template(t);
        reveal_strlit("https://github.com/lenra-io/template-");
        reveal_strlit("template-");
        assert(u[5] == ':');
        assert(!crate::patterns::template_word(u)) by {
            assert(!crate::patterns::is_ascii_alnum(u[5]));
        }
        assert(!crate::patterns::prefixed_template_word(u)) by {
            assert(u[0] == 'h');
            assert(u.take(9)[0] != crate::patterns::template_prefix()[0]);
        }
    }
}

/// The query of the template search is made exactly when every topic is a
/// valid GitHub topic.
pub proof fn lemma_templates_query_ok(topics: Seq<Seq<char>>)
    ensures
        templates_query(topics) is Ok <==> forall|i: int|
            0 <= i < topics.len() ==> github_topic(#[trigger] topics[i]),
    decreases topics.len(),
{
    if topics.len() > 0 {
        let init = topics.drop_last();
        lemma_templates_query_ok(init);
        if templates_query(topics) is Ok {
            assert forall|i: int| 0 <= i < topics.len() implies github_topic(#[trigger] topics[i]) by {
                if i < init.len() {
                    assert(topics[i] == init[i]);
                }
            }
        }
        if forall|i: int| 0 <= i < topics.len() ==> github_topic(#[trigger] topics[i]) {
            assert forall|i: int| 0 <= i < init.len() implies github_topic(#[trigger] init[i]) by {
                assert(init[i] == topics[i]);
            }
            assert(github_topic(topics[topics.len() - 1]));
        }
    }
}

} // verus!

verus! {

/// An alias designates the Lenra template of its own language: it is two
/// letters, the first one the language name's first letter and the second one
/// a letter of that name, which is JavaScript, TypeScript, Rust or Python; the
/// alias normalizes to the URL of that template.
pub proof fn lemma_alias_of_its_language(t: Seq<char>)
    ensures
        template_alias(t) != t ==> {
            &&& t.len() == 2
            &&& (template_alias(t) == "javascript"@ || template_alias(t) == "typescript"@
                || template_alias(t) == "rust"@ || template_alias(t) == "python"@)
            &&& template_alias(t)[0] == t[0]
            &&& template_alias(t).contains(t[1])
            &&& normalized_template(t) == "https://github.com/lenra-io/template-"@ + template_alias(t)
        },
{
    reveal_strlit("js");
    reveal_strlit("ts");
    reveal_strlit("rs");
    reveal_strlit("py");
    reveal_strlit("javascript");
    reveal_strlit("typescript");
    reveal_strlit("rust");
    reveal_strlit("python");
    reveal_strlit("template-");
    reveal_strlit("https://github.com/lenra-io/template-");
    let n = template_alias(t);
    if n != t {
        assert(crate::patterns::template_word(t));
        assert(short_template(t));
        assert(crate::patterns::template_prefix()[1] == 'e');
        if t == "js"@ {
            assert(n[1] == 'a' && n[4] == 's');
            assert(n.take(9)[1] == n[1]);
        } else if t == "ts"@ {
            assert(n[1] == 'y' && n[4] == 's');
            assert(n.take(9)[1] == n[1]);
        } else if t == "rs"@ {
            assert(n[2] == 's');
        } else {
            assert(n[1] == 'y');
        }
        assert(!crate::patterns::prefixed_template_word(n));
    }
}

/// Two different aliases designate two different templates.
pub proof fn lemma_aliases_distinct(t: Seq<char>, u: Seq<char>)
    requires
        template_alias(t) != t,
        template_alias(u) != u,
        t != u,
    ensures
        normalized_template(t) != normalized_template(u),
{
    lemma_alias_of_its_language(t);
    lemma_alias_of_its_language(u);
    reveal_strlit("javascript");
    reveal_strlit("typescript");
    reveal_strlit("rust");
    reveal_strlit("python");
    let p = "https://github.com/lenra-io/template-"@;
    if normalized_template(t) == normalized_template(u) {
        assert((p + template_alias(t)).skip(p.len() as int) =~= template_alias(t));
        assert((p + template_alias(u)).skip(p.len() as int) =~= template_alias(u));
        assert(template_alias(t)[0] == template_alias(u)[0]);
        assert(template_alias(t) == template_alias(u));
    }
}

} // verus!
