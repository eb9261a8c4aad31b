use pyrust_task_id::format_commit_message;
use pyrust_task_id::template::{collapse, finish_message, unescape_template};
use pyrust_task_id::HookError;
use strfmt::FmtError;

#[test]
fn test_format_commit_message_with_subject_and_body() {
    let template = "{subject}\n\n{body}\n\n{task_id}";
    let subject = "Test commit subject";
    let body = "Test commit body";
    let task_id = "TEST-111";

    let expected = String::from("Test commit subject\n\nTest commit body\n\nTEST-111");

    let formatted_message = format_commit_message(template, subject, body, task_id).unwrap();

    assert_eq!(formatted_message, expected);
}

#[test]
fn test_format_commit_message_with_subject_only() {
    let template = "{subject}\n\n{body}\n\n{task_id}";
    let subject = "Test commit subject";
    let body = "";
    let task_id = "TEST-111";

    let expected = String::from("Test commit subject\n\nTEST-111");

    let formatted_message = format_commit_message(template, subject, body, task_id).unwrap();

    assert_eq!(formatted_message, expected);
}

#[test]
fn render_short_examples() {
    let template = "{subject}\n\n{body}\n\n{task_id}";
    assert_eq!(format_commit_message(template, "S", "", "T"), Ok("S\n\nT".to_string()));
    assert_eq!(format_commit_message(template, "S", "B", "T"), Ok("S\n\nB\n\nT".to_string()));
}

#[test]
fn render_is_not_the_template() {
    let template = "{subject}";
    assert_ne!(format_commit_message(template, "S", "B", "T"), Ok(template.to_string()));
    assert_eq!(format_commit_message(template, "S", "B", "T"), Ok("S".to_string()));
}

#[test]
fn render_every_occurrence() {
    assert_eq!(
        format_commit_message("{task_id}: {subject} ({task_id})", "S", "B", "T-1"),
        Ok("T-1: S (T-1)".to_string())
    );
}

#[test]
fn render_without_placeholders() {
    assert_eq!(format_commit_message("fixed text", "S", "B", "T"), Ok("fixed text".to_string()));
    assert_eq!(format_commit_message("", "S", "B", "T"), Ok(String::new()));
}

#[test]
fn render_doubled_braces_stand_for_braces() {
    assert_eq!(format_commit_message("{{{subject}}}", "S", "B", "T"), Ok("{S}".to_string()));
}

#[test]
fn render_values_are_not_read_as_templates() {
    assert_eq!(
        format_commit_message("{subject} {body}", "{body}", "}{", "T"),
        Ok("{body} }{".to_string())
    );
}

#[test]
fn render_bad_templates() {
    for template in ["{subject", "subject}", "{}", "{unknown}", "{subject:d}", "{ subject}", "{a{b}}"] {
        assert_eq!(
            format_commit_message(template, "S", "B", "T"),
            Err(HookError::BadTemplate),
            "{}",
            template
        );
    }
}

#[test]
fn render_collapse_is_applied_once() {
    // The empty body leaves six line breaks: the first four become two.
    assert_eq!(
        format_commit_message("{subject}\n\n\n{body}\n\n\n{task_id}", "S", "", "T"),
        Ok("S\n\n\n\nT".to_string())
    );
}

#[test]
fn collapse_runs_of_line_breaks() {
    assert_eq!(collapse(""), "");
    assert_eq!(collapse("a\n\n\nb"), "a\n\n\nb");
    assert_eq!(collapse("a\n\n\n\nb"), "a\n\nb");
    assert_eq!(collapse("a\n\n\n\n\nb"), "a\n\n\nb");
    assert_eq!(collapse("a\n\n\n\n\n\n\n\nb"), "a\n\n\n\nb");
    assert_eq!(collapse("\n\n\n\na\n\n\n\n"), "\n\na\n\n");
}

#[test]
fn collapse_agrees_with_replace_of_std() {
    for text in ["", "\n", "\n\n\n\n", "x\n\n\n\n\n\n\ny\n\n\n\n\n\n\n\n\n", "é\n\n\n\n✓\n\n\n\n\n"] {
        assert_eq!(collapse(text), text.replace("\n\n\n\n", "\n\n"));
    }
}

#[test]
fn unescape_written_out_line_breaks() {
    assert_eq!(
        unescape_template("{subject}\\n\\n{body}\\n\\n{task_id}"),
        "{subject}\n\n{body}\n\n{task_id}"
    );
    assert_eq!(unescape_template("no escapes"), "no escapes");
    assert_eq!(unescape_template("\\\\n"), "\\\n");
    assert_eq!(unescape_template("\\"), "\\");
    assert_eq!(unescape_template("\\t\\n"), "\\t\n");
}

#[test]
fn finish_message_of_each_outcome() {
    assert_eq!(finish_message(Ok("S\n\n\n\nT".to_string())), Ok("S\n\nT".to_string()));
    assert_eq!(
        finish_message(Err(FmtError::Invalid("x".to_string()))),
        Err(HookError::BadTemplate)
    );
    assert_eq!(
        finish_message(Err(FmtError::KeyError("x".to_string()))),
        Err(HookError::BadTemplate)
    );
    assert_eq!(
        finish_message(Err(FmtError::TypeError("x".to_string()))),
        Err(HookError::BadTemplate)
    );
}
