//! Snowflakes, user ids, durations and timestamps.

use euphoxide::api::types::{
    ParseIntErrorKind, ParseSnowflakeError, SessionType, Snowflake, Time, UserId,
};
use euphoxide::command::botrulez::{format_duration, format_relative_time, format_time, uptime_text};

#[test]
fn snowflake_format_is_canonical() {
    assert_eq!(Snowflake(0).format(), "0000000000000");
    assert_eq!(Snowflake(35).format(), "000000000000z");
    assert_eq!(Snowflake(36).format(), "0000000000010");
    assert_eq!(Snowflake(u64::MAX).format(), "3w5e11264sgsf");
}

#[test]
fn snowflake_round_trip() {
    // parsing the canonical form and re-formatting yields the same string
    for s in ["0000000000000", "000000000000z", "00000000001b3", "3w5e11264sgsf"] {
        let sf = Snowflake::from_str(s).unwrap();
        assert_eq!(sf.format(), s);
    }
    // formatting and parsing back yields the same value
    for n in [0u64, 1, 35, 36, 1295, 0x7FFF_FFFF_FFFF_FFFF, u64::MAX] {
        assert_eq!(Snowflake::from_str(&Snowflake(n).format()), Ok(Snowflake(n)));
    }
}

#[test]
fn snowflake_rejects_other_lengths() {
    assert_eq!(
        Snowflake::from_str(""),
        Err(ParseSnowflakeError::InvalidLength(0))
    );
    assert_eq!(
        Snowflake::from_str("123"),
        Err(ParseSnowflakeError::InvalidLength(3))
    );
    assert_eq!(
        Snowflake::from_str("00000000000000"),
        Err(ParseSnowflakeError::InvalidLength(14))
    );
    assert_eq!(
        Snowflake::from_str("000000000000!"),
        Err(ParseSnowflakeError::ParseIntError(
            ParseIntErrorKind::InvalidDigit
        ))
    );
    assert_eq!(
        Snowflake::from_str("zzzzzzzzzzzzz"),
        Err(ParseSnowflakeError::ParseIntError(ParseIntErrorKind::Overflow))
    );
}

#[test]
fn user_id_session_types() {
    assert_eq!(
        UserId("agent:x".to_string()).session_type(),
        Some(SessionType::Agent)
    );
    assert_eq!(
        UserId("account:y".to_string()).session_type(),
        Some(SessionType::Account)
    );
    assert_eq!(
        UserId("bot:z".to_string()).session_type(),
        Some(SessionType::Bot)
    );
    assert_eq!(UserId("other".to_string()).session_type(), None);
}

#[test]
fn durations_render_like_clocks() {
    assert_eq!(format_duration(0), "0s");
    assert_eq!(format_duration(59), "59s");
    assert_eq!(format_duration(60), "1m");
    assert_eq!(format_duration(3600), "1h");
    assert_eq!(format_duration(86400), "1d");
    assert_eq!(format_duration(90061), "1d 1h 1m 1s");
    assert_eq!(format_duration(-90061), "-1d 1h 1m 1s");
    assert_eq!(format_relative_time(90061), "in 1d 1h 1m 1s");
    assert_eq!(format_relative_time(-90061), "1d 1h 1m 1s ago");
    assert_eq!(format_relative_time(0), "0s ago");
}

#[test]
fn timestamps_render_in_civil_utc() {
    assert_eq!(format_time(Time(0)), "1970-01-01 00:00:00 UTC");
    assert_eq!(format_time(Time(86400 + 3661)), "1970-01-02 01:01:01 UTC");
}

#[test]
fn uptime_reply_reads_naturally() {
    let reply = uptime_text(Time(0), Time(90061));
    assert_eq!(
        reply,
        "/me has been up since 1970-01-01 00:00:00 UTC (1d 1h 1m 1s ago)"
    );
}
