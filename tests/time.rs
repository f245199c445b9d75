use post_scheduler::{
    get_local_time, get_timezone_offset, parse_i32, prepare_post, query_window, schedule_instant,
    OffsetError, Post, PostStore, RequestError, Status, UtcOffset,
};

fn offset(hours: i32) -> UtcOffset {
    UtcOffset::from_hours(hours).unwrap()
}

#[test]
fn parse_i32_follows_decimal_grammar() {
    assert_eq!(parse_i32("-3"), Some(-3));
    assert_eq!(parse_i32("+5"), Some(5));
    assert_eq!(parse_i32("007"), Some(7));
    assert_eq!(parse_i32("2147483647"), Some(i32::MAX));
    assert_eq!(parse_i32("-2147483648"), Some(i32::MIN));
    assert_eq!(parse_i32("2147483648"), None);
    assert_eq!(parse_i32("99999999999999999999"), None);
    assert_eq!(parse_i32(""), None);
    assert_eq!(parse_i32("-"), None);
    assert_eq!(parse_i32("+"), None);
    assert_eq!(parse_i32(" 3"), None);
    assert_eq!(parse_i32("3a"), None);
    assert_eq!(parse_i32("--3"), None);
}

#[test]
fn timezone_offset_from_config() {
    assert_eq!(get_timezone_offset(Some("-3")).unwrap().seconds(), -10_800);
    assert_eq!(get_timezone_offset(Some("5")).unwrap().seconds(), 18_000);
    assert_eq!(get_timezone_offset(Some("0")).unwrap().seconds(), 0);
    assert_eq!(get_timezone_offset(Some("23")).unwrap().seconds(), 82_800);
    assert_eq!(get_timezone_offset(Some("-23")).unwrap().seconds(), -82_800);
}

#[test]
fn timezone_offset_errors() {
    assert_eq!(get_timezone_offset(None).unwrap_err(), OffsetError::Unset);
    assert_eq!(get_timezone_offset(Some("abc")).unwrap_err(), OffsetError::NotAnInteger);
    assert_eq!(get_timezone_offset(Some("3.5")).unwrap_err(), OffsetError::NotAnInteger);
    assert_eq!(get_timezone_offset(Some("24")).unwrap_err(), OffsetError::OutOfRange);
    assert_eq!(get_timezone_offset(Some("-24")).unwrap_err(), OffsetError::OutOfRange);
    // large enough that hours * 3600 overflows an i32
    assert_eq!(get_timezone_offset(Some("600000")).unwrap_err(), OffsetError::OutOfRange);
    assert_eq!(get_timezone_offset(Some("-2147483648")).unwrap_err(), OffsetError::OutOfRange);
    assert_eq!(get_timezone_offset(Some("99999999999")).unwrap_err(), OffsetError::NotAnInteger);
}

#[test]
fn local_time_adds_the_offset() {
    assert_eq!(get_local_time(1_000_000, &offset(-3)), Some(1_000_000 - 10_800_000));
    assert_eq!(get_local_time(1_000_000, &offset(2)), Some(1_000_000 + 7_200_000));
    assert_eq!(get_local_time(i64::MAX, &offset(1)), None);
    assert_eq!(offset(-3).to_instant(1_000_000), Some(1_000_000 + 10_800_000));
    assert_eq!(offset(1).to_instant(i64::MIN), None);
}

#[test]
fn schedule_text_is_read_in_local_time() {
    // 2024-01-15 10:30 at UTC-3 is 13:30 UTC
    assert_eq!(schedule_instant("2024-01-15 10:30", &offset(-3)), Some(1_705_325_400_000));
    assert_eq!(schedule_instant("2024-01-15 10:30", &offset(0)), Some(1_705_314_600_000));
    assert_eq!(schedule_instant("1970-01-01 00:00", &offset(1)), Some(-3_600_000));
    assert_eq!(schedule_instant("2024-13-01 10:00", &offset(0)), None);
    assert_eq!(schedule_instant("2024-01-15", &offset(0)), None);
    assert_eq!(schedule_instant("tomorrow", &offset(0)), None);
}

#[test]
fn prepare_post_builds_the_record() {
    let p = prepare_post("T".to_string(), "C".to_string(), "2024-01-15 10:30", None, &offset(-3)).unwrap();
    assert_eq!(p.title, "T");
    assert_eq!(p.content, "C");
    assert_eq!(p.scheduled_time, 1_705_325_400_000);
    assert_eq!(p.status, Status::Pending);
    let q = prepare_post("T".to_string(), "C".to_string(), "2024-01-15 10:30", Some("published"), &offset(0))
        .unwrap();
    assert_eq!(q.status, Status::Published);
}

#[test]
fn prepare_post_rejects_bad_input() {
    let bad_date = prepare_post("T".to_string(), "C".to_string(), "15/01/2024", None, &offset(0));
    assert_eq!(bad_date.err(), Some(RequestError::BadDate));
    let bad_status = prepare_post("T".to_string(), "C".to_string(), "2024-01-15 10:30", Some("done"), &offset(0));
    assert_eq!(bad_status.err(), Some(RequestError::BadStatus));
}

#[test]
fn query_window_covers_whole_local_days() {
    let (start, end) = query_window("2024-01-01", "2024-01-31", &offset(-3)).unwrap();
    assert_eq!(start, 1_704_078_000_000);
    assert_eq!(end, 1_706_756_399_000);
    assert_eq!(query_window("2024-01-01", "2024-02-30", &offset(0)), Err(RequestError::BadDate));
    assert_eq!(query_window("01-01-2024", "2024-01-31", &offset(0)), Err(RequestError::BadDate));
}

fn pending(scheduled_time: i64) -> Post {
    Post { title: "t".to_string(), content: "c".to_string(), scheduled_time, status: Status::Pending }
}

#[test]
fn query_returns_pending_posts_in_range() {
    let off = offset(-3);
    let (start, end) = query_window("2024-01-01", "2024-01-31", &off).unwrap();
    let mut store = PostStore::new();
    let first = store.insert(pending(start)).unwrap();
    let last = store.insert(pending(end)).unwrap();
    let _before = store.insert(pending(start - 1)).unwrap();
    let _after = store.insert(pending(end + 1)).unwrap();
    let mid = store.insert(pending(schedule_instant("2024-01-15 10:30", &off).unwrap())).unwrap();
    let published = store.insert(pending(start + 1)).unwrap();
    store.set_status(published, Status::Published);
    let found: Vec<u64> = store.find_pending_between(start, end).iter().map(|r| r.id).collect();
    assert_eq!(found, vec![first, last, mid]);
}
