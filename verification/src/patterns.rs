//! The regular expressions of the command line, and what they match.

use vstd::prelude::*;
use vstd::string::*;

verus! {

/// The characters that may not stand in a Docker tag.
pub const TAG_FORBIDDEN_PATTERN: &'static str = "[^A-Za-z0-9._-]";

/// A short template name: an optional `template-` prefix, then words of
/// letters and digits joined by single `_` or `-`.
pub const TEMPLATE_SHORT_PATTERN: &'static str = "^(template-)?([0-9a-zA-Z]+([_-][0-9a-zA-Z]+)*)$";

/// The replacement that keeps the name of a short template name.
pub const TEMPLATE_NAME_REPLACEMENT: &'static str = "$2";

/// A GitHub topic: words of lowercase letters and digits joined by single dashes.
pub const GITHUB_TOPIC_PATTERN: &'static str = "^[a-z0-9]+(-[a-z0-9]+)*$";

/// A git repository URL.
pub const GIT_REPO_PATTERN: &'static str =
    "^((git|ssh|http(s)?)|(git@[\\w\\.]+))(:(//)?)([\\w\\.@\\:/\\-~]+)(\\.git)(/)?$";

/// The patterns of the command line.
pub open spec fn known_pattern(p: Seq<char>) -> bool {
    ||| p == TAG_FORBIDDEN_PATTERN@
    ||| p == TEMPLATE_SHORT_PATTERN@
    ||| p == GITHUB_TOPIC_PATTERN@
    ||| p == GIT_REPO_PATTERN@
}

/// Whether `Regex::is_match` finds the pattern in the text.
pub uninterp spec fn regex_matches(pattern: Seq<char>, text: Seq<char>) -> bool;

/// An ASCII letter or digit.
pub open spec fn is_ascii_alnum(c: char) -> bool {
    ('0' <= c <= '9') || ('a' <= c <= 'z') || ('A' <= c <= 'Z')
}

/// An ASCII lowercase letter or digit.
pub open spec fn is_lower_alnum(c: char) -> bool {
    ('0' <= c <= '9') || ('a' <= c <= 'z')
}

/// Words of characters joined by single separators: the text is not empty,
/// starts and ends with a word character, and each separator stands between
/// two word characters.
pub open spec fn joined_words(
    s: Seq<char>,
    word: spec_fn(char) -> bool,
    sep: spec_fn(char) -> bool,
) -> bool {
    &&& s.len() > 0
    &&& word(s[0])
    &&& word(s.last())
    &&& forall|i: int|
        0 <= i < s.len() ==> word(#[trigger] s[i]) || (sep(s[i]) && 0 < i < s.len() - 1 && word(
            s[i - 1],
        ) && word(s[i + 1]))
}

/// A template name: words of ASCII letters and digits joined by `_` or `-`.
pub open spec fn template_word(s: Seq<char>) -> bool {
    joined_words(s, |c: char| is_ascii_alnum(c), |c: char| c == '_' || c == '-')
}

/// The prefix of a template repository's name.
pub open spec fn template_prefix() -> Seq<char> {
    "template-"@
}

/// The text is a template name after the `template-` prefix.
pub open spec fn prefixed_template_word(s: Seq<char>) -> bool {
    s.len() > template_prefix().len() && s.take(template_prefix().len() as int) == template_prefix()
        && template_word(s.skip(template_prefix().len() as int))
}

/// What the short template pattern matches: a template name, with or without
/// the `template-` prefix.
pub open spec fn short_template(s: Seq<char>) -> bool {
    template_word(s) || prefixed_template_word(s)
}

/// The name that the short template pattern captures: without the
/// `template-` prefix where the rest is a name.
pub open spec fn short_template_name(s: Seq<char>) -> Seq<char> {
    if prefixed_template_word(s) {
        s.skip(template_prefix().len() as int)
    } else {
        s
    }
}

/// What the GitHub topic pattern matches.
pub open spec fn github_topic(s: Seq<char>) -> bool {
    joined_words(s, |c: char| is_lower_alnum(c), |c: char| c == '-')
}

/// What a text that the git repository pattern matches looks like: it starts
/// with `git` (also `git@`), `ssh` or `http`, and ends with `.git` or `.git/`.
pub open spec fn git_repo_shape(s: Seq<char>) -> bool {
    &&& s.len() >= 4
    &&& (s.take(3) == "git"@ || s.take(3) == "ssh"@ || s.take(4) == "http"@)
    &&& (s.skip(s.len() - 4) == ".git"@ || (s.len() >= 5 && s.skip(s.len() - 5) == ".git/"@))
}

/// `Regex::new(pattern).is_match(text)`: whether the pattern matches the text.
/// The patterns of the command line compile. For the short template pattern
/// and the GitHub topic pattern, both anchored at the two ends, a match is a
/// whole text of the form their comments describe. The git repository
/// pattern, anchored too, starts with `git`, `ssh` or `http` and ends with
/// `.git` and an optional `/`, so a text it matches has that shape.
#[verifier::external_body]
pub(crate) fn regex_is_match(pattern: &str, text: &str) -> (r: bool)
    requires
        known_pattern(pattern@),
    ensures
        r == regex_matches(pattern@, text@),
        pattern@ == TEMPLATE_SHORT_PATTERN@ ==> (r <==> short_template(text@)),
        pattern@ == GITHUB_TOPIC_PATTERN@ ==> (r <==> github_topic(text@)),
        pattern@ == GIT_REPO_PATTERN@ && r ==> git_repo_shape(text@),
{
    regex::Regex::new(pattern).unwrap().is_match(text)
}

/// `Regex::new(pattern).replace(text, replacement)` with the short template
/// pattern and `$2` on a text that the pattern matches: the anchored match is
/// the whole text, and it is replaced by its second group, the name. The
/// optional prefix group is taken where the rest is still a name.
#[verifier::external_body]
pub(crate) fn regex_replace(pattern: &str, text: &str, replacement: &str) -> (r: String)
    requires
        pattern@ == TEMPLATE_SHORT_PATTERN@,
        replacement@ == TEMPLATE_NAME_REPLACEMENT@,
        short_template(text@),
    ensures
        r@ == short_template_name(text@),
{
    regex::Regex::new(pattern).unwrap().replace(text, replacement).to_string()
}

/// A character that may stand in a Docker tag: `[A-Za-z0-9._-]`.
pub open spec fn is_tag_char(c: char) -> bool {
    is_ascii_alnum(c) || c == '.' || c == '_' || c == '-'
}

/// Every character that may not stand in a tag replaced by a dash.
pub open spec fn sanitize_tag(tag: Seq<char>) -> Seq<char> {
    tag.map_values(|c: char| if is_tag_char(c) { c } else { '-' })
}

/// `Regex::new(pattern).replace_all(text, replacement)` with the forbidden
/// tag characters pattern and `-`: each match is a single character outside
/// the class, so every such character is replaced by one dash and the others
/// are kept in place.
#[verifier::external_body]
pub(crate) fn regex_replace_all(pattern: &str, text: &str, replacement: &str) -> (r: String)
    requires
        pattern@ == TAG_FORBIDDEN_PATTERN@,
        replacement@ == "-"@,
    ensures
        r@ == sanitize_tag(text@),
{
    regex::Regex::new(pattern).unwrap().replace_all(text, replacement).to_string()
}

} // verus!
