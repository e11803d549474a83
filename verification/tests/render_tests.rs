use news_reader::driver::render_output;
use news_reader::project::News;
use news_reader::render::render_lines;
use news_reader::render::styled_lines;
use news_reader::render::styled_selection;

fn breaking_news() -> News {
    News {
        title: "Breaking News".to_string(),
        description: "Details here".to_string(),
        link: "http://example.com".to_string(),
    }
}

#[test]
fn one_record_renders_as_four_lines_and_nothing_else() {
    let lines = render_lines(&breaking_news());
    assert_eq!(lines.len(), 4);
    assert_eq!(lines[0], "Breaking News");
    assert_eq!(lines[1], "Details here");
    assert_eq!(lines[2], "http://example.com");
    assert_eq!(lines[3], "");
}

#[test]
fn styled_lines_wrap_each_field_in_its_own_style() {
    colored::control::set_override(true);
    let lines = styled_lines(&breaking_news());
    assert_eq!(lines.len(), 4);
    assert_eq!(lines[0], "\u{1b}[1;31mBreaking News\u{1b}[0m");
    assert_eq!(lines[1], "\u{1b}[3;33mDetails here\u{1b}[0m");
    assert_eq!(lines[2], "\u{1b}[3;34mhttp://example.com\u{1b}[0m");
    assert_eq!(lines[3], "");
    colored::control::unset_override();
}

#[test]
fn styled_lines_pass_the_text_through_when_styling_is_off() {
    colored::control::set_override(false);
    let lines = styled_lines(&breaking_news());
    assert_eq!(lines[0], "Breaking News");
    assert_eq!(lines[1], "Details here");
    assert_eq!(lines[2], "http://example.com");
    colored::control::unset_override();
}

#[test]
fn selection_is_highlighted_inverted() {
    colored::control::set_override(true);
    let styled = styled_selection("TVR");
    assert_eq!(styled, "\u{1b}[1;47;30mTVR\u{1b}[0m");
    colored::control::unset_override();
}

#[test]
fn full_output_has_four_lines_per_record_in_order() {
    let records = vec![
        News {
            title: "A".to_string(),
            description: "da".to_string(),
            link: "la".to_string(),
        },
        News {
            title: "B".to_string(),
            description: "db".to_string(),
            link: "lb".to_string(),
        },
    ];
    let out = render_output(&records);
    assert_eq!(
        out,
        vec!["A", "da", "la", "", "B", "db", "lb", ""]
            .into_iter()
            .map(str::to_string)
            .collect::<Vec<_>>()
    );
}
