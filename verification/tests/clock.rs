use chrono::{DateTime, Duration, NaiveDateTime, Utc};
use discord_logger::clock::Instant;
use discord_logger::delivery::{LogAction, PostRequest};
use discord_logger::logger::{DiscordLogger, LogOptions};
use serde_json::Value;

fn logger() -> DiscordLogger {
    DiscordLogger::new("https://example.invalid/webhook".to_string(), "X".to_string(), true)
}

fn message() -> LogOptions {
    LogOptions { title: "A".to_string(), description: "B".to_string(), fields: None, color: None }
}

fn request_of(action: LogAction) -> PostRequest {
    match action {
        LogAction::Post(request) => request,
        LogAction::Finished(completion) => panic!("a request was expected, not {:?}", completion),
    }
}

fn at(secs: i64, nanos: u32) -> Instant {
    Instant { secs, nanos }
}

fn posted_at(stamp: Instant, footer: Instant) -> (String, String) {
    let request = request_of(logger().log_at(message(), stamp, footer).unwrap());
    let embed = &request.body["embeds"][0];
    (
        embed["timestamp"].as_str().unwrap().to_string(),
        embed["footer"]["text"].as_str().unwrap().to_string(),
    )
}

#[test]
fn new_year_in_utc_is_seven_in_the_morning_in_jakarta() {
    let (timestamp, footer) = posted_at(at(1704067200, 0), at(1704067200, 0));
    assert_eq!(timestamp, "2024-01-01T00:00:00+00:00");
    assert_eq!(footer, "X | 2024-01-01 07:00:00");
}

#[test]
fn epoch_is_written_with_leading_zeros() {
    let (timestamp, footer) = posted_at(at(0, 0), at(0, 0));
    assert_eq!(timestamp, "1970-01-01T00:00:00+00:00");
    assert_eq!(footer, "X | 1970-01-01 07:00:00");
}

#[test]
fn jakarta_passes_midnight_at_five_in_the_afternoon_utc() {
    let (_, before) = posted_at(at(0, 0), at(1704128399, 0));
    let (_, after) = posted_at(at(0, 0), at(1704128400, 0));
    assert_eq!(before, "X | 2024-01-01 23:59:59");
    assert_eq!(after, "X | 2024-01-02 00:00:00");
}

#[test]
fn leap_day_and_single_digits_are_padded() {
    let (timestamp, footer) = posted_at(at(1709168949, 0), at(1709168949, 0));
    assert_eq!(timestamp, "2024-02-29T01:09:09+00:00");
    assert_eq!(footer, "X | 2024-02-29 08:09:09");
}

#[test]
fn timestamp_and_footer_follow_their_own_readings() {
    let (timestamp, footer) = posted_at(at(1704067200, 0), at(1704067261, 0));
    assert_eq!(timestamp, "2024-01-01T00:00:00+00:00");
    assert_eq!(footer, "X | 2024-01-01 07:01:01");
}

#[test]
fn fractions_of_a_second_show_in_the_timestamp_alone() {
    let (millis, footer) = posted_at(at(1704067200, 123_000_000), at(1704067200, 999_999_999));
    assert_eq!(millis, "2024-01-01T00:00:00.123+00:00");
    assert_eq!(footer, "X | 2024-01-01 07:00:00");
    let (micros, _) = posted_at(at(1704067200, 123_456_000), at(0, 0));
    assert_eq!(micros, "2024-01-01T00:00:00.123456+00:00");
    let (nanos, _) = posted_at(at(1704067200, 123_456_789), at(0, 0));
    assert_eq!(nanos, "2024-01-01T00:00:00.123456789+00:00");
}

#[test]
fn reading_beyond_the_calendar_gives_no_action() {
    assert!(logger().log_at(message(), at(i64::MAX, 0), at(0, 0)).is_none());
    assert!(logger().log_at(message(), at(0, 0), at(i64::MAX, 0)).is_none());
    assert!(logger().log_at(message(), at(i64::MIN, 0), at(0, 0)).is_none());
    assert!(logger().log_at(message(), at(0, 0), at(i64::MIN, 0)).is_none());
}

#[test]
fn nanoseconds_beyond_two_seconds_give_no_action() {
    assert!(logger().log_at(message(), at(0, 2_000_000_000), at(0, 0)).is_none());
    assert!(logger().log_at(message(), at(0, 0), at(0, u32::MAX)).is_none());
}

#[test]
fn disabled_client_needs_no_reading() {
    let disabled = DiscordLogger::new(String::new(), "X".to_string(), true);
    match disabled.log_at(message(), at(i64::MAX, u32::MAX), at(i64::MIN, u32::MAX)) {
        Some(LogAction::Finished(completion)) => {
            assert!(matches!(completion.result, Ok(())));
            assert_eq!(completion.warning, Some("Discord webhook URL is not set".to_string()));
            assert_eq!(completion.confirmation, None);
        }
        other => panic!("the end of the call was expected, not {:?}", other),
    }
}

#[test]
fn log_at_posts_what_log_with_posts() {
    let by_readings = request_of(logger().log_at(message(), at(1704067200, 0), at(1704067200, 0)).unwrap());
    let by_texts = request_of(logger().log_with(
        message(),
        "2024-01-01T00:00:00+00:00".to_string(),
        "2024-01-01 07:00:00".to_string(),
    ));
    assert_eq!(by_readings.body, by_texts.body);
    assert_eq!(by_readings.url, by_texts.url);
    assert_eq!(by_readings.title, by_texts.title);
}

#[test]
fn log_reads_the_clock_of_the_machine() {
    let before = Utc::now();
    let request = request_of(logger().log(message()).unwrap());
    let after = Utc::now();
    let embed = &request.body["embeds"][0];

    let timestamp = DateTime::parse_from_rfc3339(embed["timestamp"].as_str().unwrap()).unwrap();
    assert_eq!(timestamp.offset().local_minus_utc(), 0);
    assert!(before <= timestamp.with_timezone(&Utc));
    assert!(timestamp.with_timezone(&Utc) <= after);

    let footer = embed["footer"]["text"].as_str().unwrap();
    let shown = footer.strip_prefix("X | ").unwrap();
    assert_eq!(shown.chars().count(), 19);
    let wall = NaiveDateTime::parse_from_str(shown, "%Y-%m-%d %H:%M:%S").unwrap();
    let earliest = (before + Duration::hours(7)).naive_utc() - Duration::seconds(1);
    let latest = (after + Duration::hours(7)).naive_utc();
    assert!(earliest <= wall);
    assert!(wall <= latest);
}

#[test]
fn footer_time_is_date_space_time() {
    let (_, footer) = posted_at(at(0, 0), at(1719741600, 0));
    let shown: Vec<char> = footer.strip_prefix("X | ").unwrap().chars().collect();
    assert_eq!(shown.len(), 19);
    for (index, character) in shown.iter().enumerate() {
        match index {
            4 | 7 => assert_eq!(*character, '-'),
            10 => assert_eq!(*character, ' '),
            13 | 16 => assert_eq!(*character, ':'),
            _ => assert!(character.is_ascii_digit()),
        }
    }
    assert_eq!(footer, "X | 2024-06-30 17:00:00");
}

#[test]
fn timestamp_is_posted_as_a_string() {
    let request = request_of(logger().log_at(message(), at(1704067200, 0), at(0, 0)).unwrap());
    assert_eq!(
        request.body["embeds"][0]["timestamp"],
        Value::String("2024-01-01T00:00:00+00:00".to_string())
    );
}

#[test]
fn last_second_of_the_calendar_is_still_written() {
    let (timestamp, footer) = posted_at(at(8210266876799, 999_999_999), at(8210266876799, 999_999_999));
    assert_eq!(timestamp, "+262142-12-31T23:59:59.999999999+00:00");
    assert_eq!(footer, "X | +262143-01-01 06:59:59");
}

#[test]
fn first_second_of_the_calendar_is_written() {
    let (timestamp, _) = posted_at(at(-8334601228800, 0), at(0, 0));
    assert_eq!(timestamp, "-262143-01-01T00:00:00+00:00");
    assert!(logger().log_at(message(), at(0, 0), at(-8334601228800, 0)).is_some());
}

#[test]
fn one_second_beyond_the_calendar_gives_no_action() {
    assert!(logger().log_at(message(), at(8210266876800, 0), at(0, 0)).is_none());
    assert!(logger().log_at(message(), at(0, 0), at(8210266876800, 0)).is_none());
    assert!(logger().log_at(message(), at(-8334601228801, 0), at(0, 0)).is_none());
    assert!(logger().log_at(message(), at(0, 0), at(-8334601228801, 0)).is_none());
}

#[test]
fn year_ten_thousand_is_written_with_a_sign() {
    let (timestamp, footer) = posted_at(at(253402300800, 0), at(253402300800, 0));
    assert_eq!(timestamp, "+10000-01-01T00:00:00+00:00");
    assert_eq!(footer, "X | +10000-01-01 07:00:00");
}

#[test]
fn leap_second_is_written_as_second_sixty() {
    let (timestamp, footer) = posted_at(at(59, 1_500_000_000), at(59, 1_500_000_000));
    assert_eq!(timestamp, "1970-01-01T00:00:60.500+00:00");
    assert_eq!(footer, "X | 1970-01-01 07:00:60");
    assert!(logger().log_at(message(), at(58, 1_500_000_000), at(0, 0)).is_none());
    assert!(logger().log_at(message(), at(0, 0), at(58, 1_500_000_000)).is_none());
}

#[test]
fn before_1964_the_footer_shows_the_offset_jakarta_kept_then() {
    let (timestamp, footer) = posted_at(at(-189415801, 0), at(-189415801, 0));
    assert_eq!(timestamp, "1963-12-31T16:29:59+00:00");
    assert_eq!(footer, "X | 1963-12-31 23:59:59");
    let (_, in_1950) = posted_at(at(0, 0), at(-631152000, 0));
    assert_eq!(in_1950, "X | 1950-01-01 08:00:00");
}

#[test]
fn from_1964_on_the_footer_is_seven_hours_ahead_of_utc() {
    let (timestamp, footer) = posted_at(at(-189415800, 0), at(-189415800, 0));
    assert_eq!(timestamp, "1963-12-31T16:30:00+00:00");
    assert_eq!(footer, "X | 1963-12-31 23:30:00");
    let (_, later) = posted_at(at(0, 0), at(-189388800, 0));
    assert_eq!(later, "X | 1964-01-01 07:00:00");
}

#[test]
fn same_readings_give_the_same_request() {
    let first = request_of(logger().log_at(message(), at(1719741600, 5), at(1719741601, 6)).unwrap());
    let second = request_of(logger().log_at(message(), at(1719741600, 5), at(1719741601, 6)).unwrap());
    assert_eq!(first.body, second.body);
    assert_eq!(first.body["embeds"][0]["footer"]["text"], Value::String("X | 2024-06-30 17:00:01".to_string()));
}

#[test]
fn log_gives_an_action_on_a_machine_with_a_sound_clock() {
    assert!(logger().log(message()).is_some());
    assert!(logger().info("A".to_string(), "B".to_string(), None).is_some());
    assert!(logger().success("A".to_string(), "B".to_string(), None).is_some());
    assert!(logger().error("A".to_string(), "B".to_string(), None).is_some());
}
