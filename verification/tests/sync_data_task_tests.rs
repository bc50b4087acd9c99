use vulnfeed::sync_data_task::{
    CreateSyncDataTaskRequest, SyncDataTaskIntervalMinutes, SyncDataTaskIntervalMinutesError,
    SyncDataTaskName, SyncDataTaskNameError,
};
use vulnfeed::text::{push_decimal, trim_whitespace};

#[test]
fn trim_removes_ascii_and_unicode_white_space() {
    assert_eq!(trim_whitespace("  ab c \t\n"), "ab c");
    assert_eq!(trim_whitespace("\u{3000}\u{00a0}名字\u{2003}"), "名字");
    assert_eq!(trim_whitespace("   "), "");
    assert_eq!(trim_whitespace(""), "");
    assert_eq!(trim_whitespace("x"), "x");
}

#[test]
fn decimal_formatting_matches_format() {
    for n in [0, 7, 10, 12, 720, -5, i32::MAX, i32::MIN] {
        let mut s = String::from("#");
        push_decimal(&mut s, n);
        assert_eq!(s, format!("#{}", n));
    }
}

#[test]
fn name_is_trimmed_before_validation() {
    let name = SyncDataTaskName::try_new("  daily sync \t").unwrap();
    assert_eq!(name.as_str(), "daily sync");
    assert_eq!(name.into_inner(), "daily sync".to_string());
}

#[test]
fn name_errors_come_in_rule_order() {
    assert_eq!(SyncDataTaskName::try_new(""), Err(SyncDataTaskNameError::NotEmptyViolated));
    assert_eq!(SyncDataTaskName::try_new("   \t"), Err(SyncDataTaskNameError::NotEmptyViolated));
    assert_eq!(SyncDataTaskName::try_new("abc"), Err(SyncDataTaskNameError::LenCharMinViolated));
    assert_eq!(SyncDataTaskName::try_new("  abc  "), Err(SyncDataTaskNameError::LenCharMinViolated));
    assert_eq!(
        SyncDataTaskName::try_new("abcdefghijklmnopqrstu"),
        Err(SyncDataTaskNameError::LenCharMaxViolated)
    );
}

#[test]
fn name_length_bounds_are_inclusive_and_count_characters() {
    assert!(SyncDataTaskName::try_new("abcd").is_ok());
    assert!(SyncDataTaskName::try_new("abcdefghijklmnopqrst").is_ok());
    // four characters, twelve bytes
    assert_eq!(SyncDataTaskName::try_new("漏洞同步").unwrap().as_str(), "漏洞同步");
    assert_eq!(SyncDataTaskName::try_new("漏洞"), Err(SyncDataTaskNameError::LenCharMinViolated));
}

#[test]
fn accepted_name_revalidates_unchanged() {
    let name = SyncDataTaskName::try_new("\u{2028} weekly feed ").unwrap();
    let again = SyncDataTaskName::try_new(name.as_str()).unwrap();
    assert_eq!(again, name);
    let copy = name.clone();
    assert_eq!(copy.as_str(), "weekly feed");
}

#[test]
fn interval_bounds() {
    assert_eq!(
        SyncDataTaskIntervalMinutes::try_new(0),
        Err(SyncDataTaskIntervalMinutesError::GreaterOrEqualViolated)
    );
    assert_eq!(
        SyncDataTaskIntervalMinutes::try_new(721),
        Err(SyncDataTaskIntervalMinutesError::LessOrEqualViolated)
    );
    assert_eq!(
        SyncDataTaskIntervalMinutes::try_new(u32::MAX),
        Err(SyncDataTaskIntervalMinutesError::LessOrEqualViolated)
    );
    assert_eq!(SyncDataTaskIntervalMinutes::try_new(1).unwrap().into_inner(), 1);
    assert_eq!(SyncDataTaskIntervalMinutes::try_new(720).unwrap().into_inner(), 720);
    assert_eq!(SyncDataTaskIntervalMinutes::try_new(45).unwrap().as_i32(), 45i32);
}

#[test]
fn create_request_has_no_job_yet() {
    let name = SyncDataTaskName::try_new("nightly").unwrap();
    let interval = SyncDataTaskIntervalMinutes::try_new(60).unwrap();
    let req = CreateSyncDataTaskRequest::new(name.clone(), interval, true);
    assert_eq!(req.name, name);
    assert_eq!(req.interval_minutes, interval);
    assert!(req.status);
    assert_eq!(req.job_id, None);
}
