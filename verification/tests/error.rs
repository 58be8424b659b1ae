use xcnotary::error::{
    join_parts, Emphasis, OperationError, PrecheckError, Status, TextPart, DEFAULT_HELP_URL,
};

#[test]
fn operation_error_renders_text_after_a_fixed_prefix() {
    assert_eq!(OperationError::new("it broke").render(), "Error: it broke");
    assert_eq!(OperationError::new("").render(), "Error: ");
}

#[test]
fn operation_error_renders_detail_under_its_heading() {
    assert_eq!(
        OperationError::detail("Staple failed", "no ticket").render(),
        "Staple failed:\nno ticket"
    );
}

#[test]
fn operation_error_constructors_keep_their_arguments() {
    match OperationError::new("a") {
        OperationError::Text(text) => assert_eq!(text, "a"),
        OperationError::Detailed(..) => panic!("expected a plain error"),
    }
    match OperationError::detail("h", "m") {
        OperationError::Detailed(heading, text) => {
            assert_eq!(heading, "h");
            assert_eq!(text, "m");
        }
        OperationError::Text(_) => panic!("expected a detailed error"),
    }
}

#[test]
fn operation_error_clone_is_equal() {
    let error = OperationError::detail("h", "m");
    assert_eq!(error.clone().render(), error.render());
}

#[test]
fn precheck_error_defaults_to_the_general_help_page() {
    let error = PrecheckError::new("Not signed.", "Sign it.");
    assert_eq!(error.message, "Not signed.");
    assert_eq!(error.solution, "Sign it.");
    assert_eq!(error.see_also, None);
    assert_eq!(error.reference_url(), DEFAULT_HELP_URL);
    assert_eq!(
        error.render(),
        format!(
            "Pre-notarization check failed:\nNot signed.\n\nSuggested fix:\n   Sign it.\n\nSee also:\n   {}",
            DEFAULT_HELP_URL
        )
    );
}

#[test]
fn precheck_error_keeps_its_own_page() {
    let error = PrecheckError::new_with_url("Not signed.", "Sign it.", "https://example.com/help");
    assert_eq!(error.see_also, Some("https://example.com/help".to_string()));
    assert_eq!(error.reference_url(), "https://example.com/help");
    assert_eq!(
        error.render(),
        "Pre-notarization check failed:\nNot signed.\n\nSuggested fix:\n   Sign it.\n\nSee also:\n   https://example.com/help"
    );
    assert_eq!(error.clone().render(), error.render());
}

#[test]
fn default_help_url_is_the_notarization_issues_page() {
    assert_eq!(
        DEFAULT_HELP_URL,
        "https://developer.apple.com/documentation/xcode/notarizing_macos_software_before_distribution/resolving_common_notarization_issues"
    );
}

#[test]
fn status_pass_is_no_error() {
    assert!(Status::Pass.is_pass());
    assert!(!Status::Pass.is_fail());
    assert!(Status::Pass.to_err().is_none());
}

#[test]
fn status_fail_becomes_the_error_it_describes() {
    let status = Status::fail_with("m", "s", Some("u".to_string()));
    assert!(status.is_fail());
    assert!(!status.is_pass());
    let error = status.to_err().unwrap();
    assert_eq!(error.message, "m");
    assert_eq!(error.solution, "s");
    assert_eq!(error.see_also, Some("u".to_string()));

    let error = Status::fail_with("m", "s", None).to_err().unwrap();
    assert_eq!(error.see_also, None);
}

fn shown(parts: &[TextPart]) -> Vec<(Emphasis, String)> {
    parts.iter().map(|p| (p.emphasis, p.text.clone())).collect()
}

#[test]
fn operation_error_from_string_is_a_plain_error() {
    let error = OperationError::from("it broke".to_string());
    match &error {
        OperationError::Text(text) => assert_eq!(text, "it broke"),
        OperationError::Detailed(..) => panic!("expected a plain error"),
    }
    assert_eq!(error.render(), "Error: it broke");
    let converted: OperationError = "again".to_string().into();
    assert_eq!(converted.render(), "Error: again");
}

#[test]
fn operation_error_parts_mark_the_prefix_or_the_heading() {
    let error = OperationError::new("it broke");
    assert_eq!(
        shown(&error.parts()),
        vec![
            (Emphasis::Alert, "Error: ".to_string()),
            (Emphasis::Plain, "it broke".to_string())
        ]
    );
    assert_eq!(join_parts(&error.parts()), error.render());

    let error = OperationError::detail("Staple failed", "no ticket");
    assert_eq!(
        shown(&error.parts()),
        vec![
            (Emphasis::Alert, "Staple failed".to_string()),
            (Emphasis::Plain, ":\nno ticket".to_string())
        ]
    );
    assert_eq!(join_parts(&error.parts()), "Staple failed:\nno ticket");
}

#[test]
fn precheck_error_parts_mark_the_title_and_the_headings() {
    let error = PrecheckError::new_with_url("Not signed.", "Sign it.", "https://example.com/help");
    assert_eq!(
        shown(&error.parts()),
        vec![
            (Emphasis::Alert, "Pre-notarization check failed:".to_string()),
            (Emphasis::Plain, "\nNot signed.\n\n".to_string()),
            (Emphasis::Heading, "Suggested fix:".to_string()),
            (Emphasis::Plain, "\n   Sign it.\n\n".to_string()),
            (Emphasis::Heading, "See also:".to_string()),
            (Emphasis::Plain, "\n   https://example.com/help".to_string()),
        ]
    );
    assert_eq!(join_parts(&error.parts()), error.render());
}

#[test]
fn join_parts_puts_texts_one_after_the_other() {
    assert_eq!(join_parts(&Vec::new()), "");
    let parts = vec![
        TextPart { emphasis: Emphasis::Heading, text: "a".to_string() },
        TextPart { emphasis: Emphasis::Plain, text: "".to_string() },
        TextPart { emphasis: Emphasis::Alert, text: "bc".to_string() },
    ];
    assert_eq!(join_parts(&parts), "abc");
}
