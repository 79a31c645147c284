use sitegen::error::SiteError;
use sitegen::front_matter::split_front_matter;
use sitegen::front_matter::FrontMatter;

#[test]
fn text_without_marker_is_all_body() {
    let parts = split_front_matter("# Hello").unwrap();
    assert_eq!(parts.metadata, None);
    assert_eq!(parts.body, "# Hello");
}

#[test]
fn empty_text_is_an_empty_body() {
    assert_eq!(
        split_front_matter(""),
        Ok(FrontMatter { metadata: None, body: String::new() })
    );
}

#[test]
fn marker_that_does_not_open_the_text_is_body() {
    let parts = split_front_matter(" ---\ntitle: B\n---\n").unwrap();
    assert_eq!(parts.metadata, None);
    assert_eq!(parts.body, " ---\ntitle: B\n---\n");
}

#[test]
fn block_runs_to_the_next_marker() {
    let parts = split_front_matter("---\ntitle: B\n---\nWorld").unwrap();
    assert_eq!(parts.metadata, Some("\ntitle: B\n".to_string()));
    assert_eq!(parts.body, "\nWorld");
}

#[test]
fn block_and_body_may_be_empty() {
    assert_eq!(
        split_front_matter("------"),
        Ok(FrontMatter { metadata: Some(String::new()), body: String::new() })
    );
}

#[test]
fn later_markers_belong_to_the_body() {
    let parts = split_front_matter("---\na: 1\n---\nx\n---\ny").unwrap();
    assert_eq!(parts.metadata, Some("\na: 1\n".to_string()));
    assert_eq!(parts.body, "\nx\n---\ny");
}

#[test]
fn marker_inside_a_value_closes_the_block() {
    let parts = split_front_matter("---\ntitle: a---b\n---\nbody").unwrap();
    assert_eq!(parts.metadata, Some("\ntitle: a".to_string()));
    assert_eq!(parts.body, "b\n---\nbody");
}

#[test]
fn block_is_cut_by_characters() {
    let parts = split_front_matter("---\ntitle: 日本語\n---\n本文").unwrap();
    assert_eq!(parts.metadata, Some("\ntitle: 日本語\n".to_string()));
    assert_eq!(parts.body, "\n本文");
}

#[test]
fn unclosed_block_is_malformed() {
    assert_eq!(split_front_matter("---\ntitle: B\nWorld"), Err(SiteError::MalformedFrontMatter));
}

#[test]
fn opening_marker_alone_is_malformed() {
    assert_eq!(split_front_matter("---"), Err(SiteError::MalformedFrontMatter));
    assert_eq!(split_front_matter("-----"), Err(SiteError::MalformedFrontMatter));
}
