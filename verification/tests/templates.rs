use lenra_cli::git::Repository;
use lenra_cli::template::{
    choice_index, normalize_template, parse_usize, repository_choice_line, TemplateData,
    TemplateDataSource,
};

#[test]
fn short_template_names() {
    assert_eq!(
        normalize_template("js".to_string()),
        "https://github.com/lenra-io/template-javascript"
    );
    assert_eq!(normalize_template("rs".to_string()), "https://github.com/lenra-io/template-rust");
    assert_eq!(
        normalize_template("template-python".to_string()),
        "https://github.com/lenra-io/template-python"
    );
    assert_eq!(
        normalize_template("hello_world-app".to_string()),
        "https://github.com/lenra-io/template-hello_world-app"
    );
    assert_eq!(
        normalize_template("template".to_string()),
        "https://github.com/lenra-io/template-template"
    );
}

#[test]
fn other_templates_are_kept() {
    let url = "https://github.com/someone/template.git";
    assert_eq!(normalize_template(url.to_string()), url);
    assert_eq!(normalize_template("bad__name".to_string()), "bad__name");
    assert_eq!(normalize_template("".to_string()), "");
    let once = normalize_template("ts".to_string());
    assert_eq!(normalize_template(once.clone()), once);
}

#[test]
fn template_data_file_round_trip() {
    let data = TemplateData {
        template: "https://github.com/lenra-io/template-javascript".to_string(),
        commit: Some("0123abcd".to_string()),
    };
    let content = data.file_content();
    assert_eq!(content, "https://github.com/lenra-io/template-javascript\n0123abcd");
    let read = TemplateData::parse(&content);
    assert_eq!(read.template, data.template);
    assert_eq!(read.commit, data.commit);
}

#[test]
fn template_data_sources() {
    let from_file = TemplateData::from_source(&TemplateDataSource::File("tpl\nabc\nrest".into()));
    assert_eq!(from_file.template, "tpl");
    assert_eq!(from_file.commit, Some("abc".to_string()));
    let from_git = TemplateData::from_source(&TemplateDataSource::GitRemote("git@host:x.git".into()));
    assert_eq!(from_git.template, "git@host:x.git");
    assert_eq!(from_git.commit, None);
    let typed = TemplateData::from_source(&TemplateDataSource::Typed("py".into()));
    assert_eq!(typed.template, "https://github.com/lenra-io/template-python");
    assert_eq!(typed.commit, None);
}

#[test]
fn numbers_read_like_usize_from_str() {
    assert_eq!(parse_usize("12"), Some(12));
    assert_eq!(parse_usize("+7"), Some(7));
    assert_eq!(parse_usize("007"), Some(7));
    assert_eq!(parse_usize(""), None);
    assert_eq!(parse_usize("+"), None);
    assert_eq!(parse_usize("-1"), None);
    assert_eq!(parse_usize(" 1"), None);
    assert_eq!(parse_usize("1a"), None);
    assert_eq!(parse_usize("99999999999999999999999"), None);
    for s in ["0", "42", "+3", "18446744073709551615", "x", "-0"] {
        assert_eq!(parse_usize(s), s.parse::<usize>().ok());
    }
}

#[test]
fn choices() {
    assert_eq!(choice_index("1", 2), Some(0));
    assert_eq!(choice_index("2", 2), Some(1));
    assert_eq!(choice_index("3", 2), None);
    assert_eq!(choice_index("0", 2), None);
    assert_eq!(choice_index("", 2), None);
}

#[test]
fn repository_lines() {
    let repo = Repository {
        name: "lenra-io/template-javascript".into(),
        description: "Javascript template".into(),
        url: "u".into(),
        stars: 12,
    };
    assert_eq!(
        repository_choice_line(0, &repo),
        "[1]:  lenra-io/template-javascript (12 stars) - Javascript template"
    );
    assert_eq!(
        repository_choice_line(99, &repo),
        "[100]: lenra-io/template-javascript (12 stars) - Javascript template"
    );
    assert_eq!(
        repository_choice_line(0, &repo),
        format!(
            "{:5} {} ({} stars) - {}",
            format!("[{}]:", 1),
            repo.name,
            repo.stars,
            repo.description
        )
    );
}
