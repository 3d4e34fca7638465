use todo_by::context::EvaluationContext;
use todo_by::date::CalendarDate;
use todo_by::directive::Directive;
use todo_by::evaluate::{check_requirement, decide, evaluate, Verdict};
use todo_by::version::{Version, VersionRequirement};

fn ymd(year: i32, month: u32, day: u32) -> CalendarDate {
    CalendarDate::new(year, month, day).expect("a day of the calendar")
}

fn setting(today: CalendarDate, version: Option<&str>) -> EvaluationContext {
    EvaluationContext {
        today,
        current_version: version.map(|text| Version::parse(text).expect("a version")),
    }
}

fn deadline(year: i32, month: u32, date: u32) -> Directive {
    Directive::ByDate { deadline: ymd(year, month, date), message: None }
}

fn before(requirement: &str) -> Directive {
    Directive::before_version(requirement, None).expect("a version requirement")
}

fn during(requirement: &str) -> Directive {
    Directive::while_version_matches(requirement, None).expect("a version requirement")
}

fn is_expired(verdict: &Verdict) -> bool {
    matches!(verdict, Verdict::Expired { .. })
}

#[test]
fn decide_expires_a_deadline_that_lies_before_today() {
    let directive = deadline(2025, 6, 1);
    for finding in [None, Some(true), Some(false)] {
        assert!(!decide(&directive, &ymd(2025, 5, 31), finding));
        assert!(!decide(&directive, &ymd(2025, 6, 1), finding));
        assert!(decide(&directive, &ymd(2025, 6, 2), finding));
        assert!(decide(&directive, &ymd(2026, 1, 1), finding));
        assert!(!decide(&directive, &ymd(2024, 12, 31), finding));
    }
}

#[test]
fn decide_expires_before_version_on_a_match() {
    let directive = before(">=2.0.0");
    let today = ymd(2025, 6, 1);
    assert!(decide(&directive, &today, Some(true)));
    assert!(!decide(&directive, &today, Some(false)));
    assert!(!decide(&directive, &today, None));
}

#[test]
fn decide_expires_while_version_matches_off_a_match() {
    let directive = during("<2.0.0");
    let today = ymd(2025, 6, 1);
    assert!(!decide(&directive, &today, Some(true)));
    assert!(decide(&directive, &today, Some(false)));
    assert!(!decide(&directive, &today, None));
}

#[test]
fn decide_ignores_the_date_for_version_directives() {
    for today in [ymd(1970, 1, 1), ymd(2025, 6, 1), ymd(9999, 12, 31)] {
        assert!(decide(&before("<2.0.0"), &today, Some(true)));
        assert!(!decide(&during("<2.0.0"), &today, Some(true)));
    }
}

#[test]
fn check_requirement_holds_the_requirement_against_the_current_version() {
    let today = ymd(2025, 6, 1);
    assert_eq!(check_requirement(&before("<2.0.0"), &setting(today, Some("1.9.0"))), Some(true));
    assert_eq!(check_requirement(&before("<2.0.0"), &setting(today, Some("2.0.0"))), Some(false));
    assert_eq!(check_requirement(&during("<2.0.0"), &setting(today, Some("1.9.0"))), Some(true));
    assert_eq!(check_requirement(&during("<2.0.0"), &setting(today, Some("2.0.0"))), Some(false));
}

#[test]
fn check_requirement_finds_nothing_without_a_current_version() {
    let today = ymd(2025, 6, 1);
    assert_eq!(check_requirement(&before("<2.0.0"), &setting(today, None)), None);
    assert_eq!(check_requirement(&during("<2.0.0"), &setting(today, None)), None);
}

#[test]
fn check_requirement_finds_nothing_for_a_deadline() {
    let today = ymd(2025, 6, 1);
    assert_eq!(check_requirement(&deadline(2020, 1, 1), &setting(today, Some("1.0.0"))), None);
    assert_eq!(check_requirement(&deadline(2020, 1, 1), &setting(today, None)), None);
}

#[test]
fn the_deadline_day_is_still_active() {
    for d in [ymd(2025, 6, 1), ymd(2024, 2, 29), ymd(2025, 12, 31), ymd(1, 1, 1), ymd(-44, 3, 15)] {
        let directive = Directive::ByDate { deadline: d, message: None };
        assert_eq!(evaluate(&directive, &setting(d, None)), Verdict::Active);
        assert_eq!(evaluate(&directive, &setting(d, Some("1.0.0"))), Verdict::Active);
    }
}

#[test]
fn the_day_after_the_deadline_is_expired() {
    for d in [ymd(2025, 6, 1), ymd(2024, 2, 28), ymd(2024, 2, 29), ymd(2025, 12, 31), ymd(9999, 12, 31)] {
        let directive = Directive::ByDate { deadline: d, message: None };
        let next = d.next_day().expect("a following day");
        assert!(is_expired(&evaluate(&directive, &setting(next, None))));
        assert!(is_expired(&evaluate(&directive, &setting(next, Some("1.0.0")))));
    }
}

#[test]
fn a_deadline_stays_expired_and_was_active_before() {
    let directive = deadline(2025, 6, 1);
    assert_eq!(evaluate(&directive, &setting(ymd(2025, 5, 31), None)), Verdict::Active);
    assert_eq!(evaluate(&directive, &setting(ymd(1999, 1, 1), None)), Verdict::Active);
    assert!(is_expired(&evaluate(&directive, &setting(ymd(2025, 7, 1), None))));
    assert!(is_expired(&evaluate(&directive, &setting(ymd(2026, 1, 1), None))));
    assert!(is_expired(&evaluate(&directive, &setting(ymd(3000, 1, 1), None))));
}

const REQUIREMENTS: [&str; 10] =
    ["<2.0.0", "<=1.3.1", "<1.3.1", ">1.0.0", ">=2.0.0", "=1.3.1", "1.2.3", "~1.3", "*", ">=1.2.0, <1.5.0"];

const VERSIONS: [&str; 9] =
    ["0.3.0", "1.0.0", "1.2.3", "1.3.0", "1.3.1", "1.9.0", "2.0.0", "2.0.0-rc.1", "11.1.0"];

#[test]
fn before_version_is_expired_exactly_on_a_match() {
    let today = ymd(2025, 6, 1);
    for r in REQUIREMENTS {
        for v in VERSIONS {
            let matched = VersionRequirement::parse(r).unwrap().matches(&Version::parse(v).unwrap());
            let verdict = evaluate(&before(r), &setting(today, Some(v)));
            assert_eq!(is_expired(&verdict), matched, "{r} {v}");
        }
    }
}

#[test]
fn while_version_matches_is_expired_exactly_off_a_match() {
    let today = ymd(2025, 6, 1);
    for r in REQUIREMENTS {
        for v in VERSIONS {
            let matched = VersionRequirement::parse(r).unwrap().matches(&Version::parse(v).unwrap());
            let verdict = evaluate(&during(r), &setting(today, Some(v)));
            assert_eq!(is_expired(&verdict), !matched, "{r} {v}");
        }
    }
}

#[test]
fn the_two_version_directives_never_agree() {
    let today = ymd(2025, 6, 1);
    for r in REQUIREMENTS {
        for v in VERSIONS {
            let one = evaluate(&before(r), &setting(today, Some(v)));
            let other = evaluate(&during(r), &setting(today, Some(v)));
            assert_ne!(is_expired(&one), is_expired(&other), "{r} {v}");
        }
    }
}

#[test]
fn without_a_current_version_version_directives_are_active() {
    for today in [ymd(1970, 1, 1), ymd(2025, 6, 1)] {
        for r in REQUIREMENTS {
            assert_eq!(evaluate(&before(r), &setting(today, None)), Verdict::Active, "{r}");
            assert_eq!(evaluate(&during(r), &setting(today, None)), Verdict::Active, "{r}");
        }
    }
}

#[test]
fn a_version_directive_can_be_active_with_a_current_version() {
    let today = ymd(2025, 6, 1);
    assert_eq!(evaluate(&before("<1.3.1"), &setting(today, Some("1.3.1"))), Verdict::Active);
    assert_eq!(evaluate(&during("<2.0.0"), &setting(today, Some("1.9.0"))), Verdict::Active);
}

#[test]
fn an_expired_deadline_carries_its_message() {
    let directive = Directive::by_date("2020-01-01", Some("fix perf")).unwrap();
    assert_eq!(
        evaluate(&directive, &setting(ymd(2025, 6, 1), None)),
        Verdict::Expired { rendered_message: "TODO by Jan 1, 2020 has passed: fix perf".to_string() }
    );
}

#[test]
fn an_expired_before_version_carries_its_message() {
    let directive = Directive::before_version(">=2.0.0", Some("drop the old API")).unwrap();
    assert_eq!(
        evaluate(&directive, &setting(ymd(2025, 6, 1), Some("2.1.0"))),
        Verdict::Expired {
            rendered_message:
                "TODO version requirement '>=2.0.0' satisfied by current v2.1.0: drop the old API"
                    .to_string()
        }
    );
}

#[test]
fn an_expired_while_version_matches_carries_its_message() {
    let directive = Directive::while_version_matches("1.2.3", None).unwrap();
    assert_eq!(
        evaluate(&directive, &setting(ymd(2025, 6, 1), Some("2.0.0-rc.1"))),
        Verdict::Expired {
            rendered_message: "TODO version requirement '^1.2.3' not satisfied by current v2.0.0-rc.1"
                .to_string()
        }
    );
}

#[test]
fn evaluating_twice_gives_the_same_verdict() {
    let directive = Directive::by_date("2020-01-01", Some("fix perf")).unwrap();
    let context = setting(ymd(2025, 6, 1), Some("1.0.0"));
    assert_eq!(evaluate(&directive, &context), evaluate(&directive, &context));
}
