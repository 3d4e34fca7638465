use todo_by::context::{current_version, current_version_str, EvaluationContext, ManifestError};
use todo_by::date::CalendarDate;
use todo_by::version::Version;

const ERRORS: [ManifestError; 4] = [
    ManifestError::NotFound,
    ManifestError::NotParseable,
    ManifestError::NoPackage,
    ManifestError::NoVersion,
];

fn text(value: &str) -> Option<String> {
    Some(value.to_string())
}

#[test]
fn the_override_is_taken_before_the_manifest() {
    assert_eq!(current_version_str(text("2.0.0"), Some(Ok("0.3.0".to_string()))), text("2.0.0"));
    assert_eq!(current_version_str(text("2.0.0"), Some(Ok("2.0.0".to_string()))), text("2.0.0"));
    for error in ERRORS {
        assert_eq!(current_version_str(text("2.0.0"), Some(Err(error))), text("2.0.0"));
    }
}

#[test]
fn the_override_is_taken_as_it_is() {
    assert_eq!(current_version_str(text(""), Some(Ok("0.3.0".to_string()))), text(""));
    assert_eq!(current_version_str(text("not a version"), Some(Ok("0.3.0".to_string()))), text("not a version"));
}

#[test]
fn without_an_override_the_manifest_decides() {
    assert_eq!(current_version_str(None, Some(Ok("0.3.0".to_string()))), text("0.3.0"));
    assert_eq!(current_version_str(None, Some(Ok("what it says".to_string()))), text("what it says"));
}

#[test]
fn a_manifest_without_a_version_gives_none() {
    for error in ERRORS {
        assert_eq!(current_version_str(None, Some(Err(error))), None);
        assert_eq!(current_version(None, Some(Err(error))), None);
    }
}

#[test]
fn override_precedence() {
    let expected = Version::parse("2.0.0");
    assert!(expected.is_some());
    assert_eq!(current_version(text("2.0.0"), Some(Ok("0.3.0".to_string()))), expected);
    assert_eq!(current_version(text("2.0.0"), Some(Ok("9.9.9".to_string()))), expected);
    assert_eq!(current_version(text("2.0.0"), Some(Ok("not a version".to_string()))), expected);
    for error in ERRORS {
        assert_eq!(current_version(text("2.0.0"), Some(Err(error))), expected);
    }
    assert_eq!(current_version(text("2.0.0"), Some(Ok("0.3.0".to_string()))).unwrap().text(), "2.0.0");
}

#[test]
fn the_manifest_version_is_parsed() {
    assert_eq!(current_version(None, Some(Ok("0.3.0".to_string()))), Version::parse("0.3.0"));
    assert_eq!(current_version(None, Some(Ok("1.0.0-rc.1".to_string()))).unwrap().text(), "1.0.0-rc.1");
}

#[test]
fn a_text_that_is_no_version_resolves_to_none() {
    assert_eq!(current_version(None, Some(Ok("1.0".to_string()))), None);
    assert_eq!(current_version(None, Some(Ok("".to_string()))), None);
    assert_eq!(current_version(None, Some(Ok("workspace".to_string()))), None);
}

#[test]
fn an_override_that_is_no_version_does_not_fall_back_to_the_manifest() {
    assert_eq!(current_version(text("two"), Some(Ok("0.3.0".to_string()))), None);
    assert_eq!(current_version(text(""), Some(Ok("0.3.0".to_string()))), None);
    assert_eq!(current_version(text("2.0"), Some(Ok("0.3.0".to_string()))), None);
}

#[test]
fn a_manifest_that_was_not_read_gives_none() {
    assert_eq!(current_version_str(None, None), None);
    assert_eq!(current_version(None, None), None);
}

#[test]
fn under_an_override_the_manifest_need_not_be_read() {
    assert_eq!(current_version_str(text("2.0.0"), None), text("2.0.0"));
    assert_eq!(current_version(text("2.0.0"), None), Version::parse("2.0.0"));
    assert_eq!(current_version(text("two"), None), None);
}

#[test]
fn resolve_keeps_the_day_and_resolves_the_version() {
    let today = CalendarDate::new(2025, 6, 1).unwrap();

    let context = EvaluationContext::resolve(today, text("2.0.0"), Some(Ok("0.3.0".to_string())));
    assert_eq!(context.today, today);
    assert_eq!(context.current_version, Version::parse("2.0.0"));

    let context = EvaluationContext::resolve(today, text("2.0.0"), None);
    assert_eq!(context.current_version, Version::parse("2.0.0"));

    let context = EvaluationContext::resolve(today, None, Some(Ok("0.3.0".to_string())));
    assert_eq!(context.today, today);
    assert_eq!(context.current_version, Version::parse("0.3.0"));

    let context = EvaluationContext::resolve(today, None, Some(Err(ManifestError::NoPackage)));
    assert_eq!(context.current_version, None);

    let context = EvaluationContext::resolve(today, None, None);
    assert_eq!(context.current_version, None);
}
