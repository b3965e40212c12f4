use roux::util::option::{FeedOption, FeedOptionError, TimePeriod};
use roux::util::url::{build_oauth, build_url};

#[test]
fn test_build_url_after() {
    let after = "some_after";
    let options = FeedOption::new().after(after).unwrap();

    let url = &mut String::from("");
    options.build_url(url);

    assert!(*url == format!("?&after={}&", after))
}

#[test]
fn test_build_url_before() {
    let before = "some_before";
    let options = FeedOption::new().before(before).unwrap();

    let url = &mut String::from("");
    options.build_url(url);

    assert!(*url == format!("?&before={}&", before))
}

#[test]
fn test_build_url_count() {
    let count = 100u32;
    let options = FeedOption::new().count(count);

    let url = &mut String::from("");
    options.build_url(url);

    assert!(*url == format!("?&count={}&", count))
}

#[test]
fn after_then_before_is_refused() {
    let options = FeedOption::new().after("t3_a").unwrap();
    assert_eq!(options.before("t3_b").unwrap_err(), FeedOptionError::ConflictingAnchors);
}

#[test]
fn before_then_after_is_refused() {
    let options = FeedOption::new().before("t3_b").unwrap();
    assert_eq!(options.after("t3_a").unwrap_err(), FeedOptionError::ConflictingAnchors);
}

#[test]
fn after_may_be_set_again() {
    let options = FeedOption::new().after("t3_a").unwrap().after("t3_c").unwrap();
    assert_eq!(options.after_anchor(), Some("t3_c"));
    assert!(options.before_anchor().is_none());
}

#[test]
fn query_is_ordered_anchor_count_limit_period() {
    let options = FeedOption::new()
        .period(TimePeriod::ThisWeek)
        .limit(25)
        .count(7)
        .after("t3_abc")
        .unwrap();
    let mut url = String::from("https://www.reddit.com/r/rust/top.json");
    options.build_url(&mut url);
    assert_eq!(url, "https://www.reddit.com/r/rust/top.json?&after=t3_abc&count=7&limit=25&t=week&");
}

#[test]
fn query_of_no_options_is_bare() {
    let mut url = String::new();
    FeedOption::new().build_url(&mut url);
    assert_eq!(url, "?&");
}

#[test]
fn default_options_are_empty() {
    let options = FeedOption::default();
    assert!(options.after_anchor().is_none());
    assert!(options.before_anchor().is_none());
    assert!(options.seen_count().is_none());
    assert!(options.page_limit().is_none());
    assert!(options.time_period().is_none());
}

#[test]
fn numbers_are_written_in_decimal() {
    for (n, text) in [(0u32, "0"), (9, "9"), (10, "10"), (1009, "1009"), (u32::MAX, "4294967295")] {
        let mut url = String::new();
        FeedOption::new().limit(n).build_url(&mut url);
        assert_eq!(url, format!("?&limit={}&", text));
    }
}

#[test]
fn period_strings() {
    assert_eq!(TimePeriod::Now.get_string_for_period(), "now");
    assert_eq!(TimePeriod::Today.get_string_for_period(), "day");
    assert_eq!(TimePeriod::ThisWeek.get_string_for_period(), "week");
    assert_eq!(TimePeriod::ThisMonth.get_string_for_period(), "month");
    assert_eq!(TimePeriod::ThisYear.get_string_for_period(), "year");
    assert_eq!(TimePeriod::AllTime.get_string_for_period(), "all");
}

#[test]
fn urls_of_both_hosts() {
    assert_eq!(build_url("api/v1/access_token"), "https://www.reddit.com/api/v1/access_token/.json");
    assert_eq!(build_oauth("api/v1/me"), "https://oauth.reddit.com/api/v1/me/.json");
}

#[test]
fn options_are_read_back() {
    let options = FeedOption::new().before("t3_b").unwrap().count(3).limit(50).period(TimePeriod::AllTime);
    assert!(options.after_anchor().is_none());
    assert_eq!(options.before_anchor(), Some("t3_b"));
    assert_eq!(options.seen_count(), Some(3));
    assert_eq!(options.page_limit(), Some(50));
    assert!(matches!(options.time_period(), Some(TimePeriod::AllTime)));
    let copy = options.clone();
    let (mut first, mut second) = (String::new(), String::new());
    options.build_url(&mut first);
    copy.build_url(&mut second);
    assert_eq!(first, "?&before=t3_b&count=3&limit=50&t=all&");
    assert_eq!(first, second);
}
