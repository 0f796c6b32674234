use qtshut::time_parser::TimeParser;
use qtshut::types::TimeInput;

#[test]
fn test_time_parser_creation() {
    let parser = TimeParser::new();
    assert!(!parser.chinese_numbers.is_empty());
}

#[test]
fn test_duration_parsing() {
    let parser = TimeParser::new();

    let test_cases = vec![
        ("30分钟", 30 * 60),
        ("2小时", 2 * 3600),
        ("90秒", 90),
        ("1h", 3600),
        ("30m", 30 * 60),
    ];

    for (input, expected_seconds) in test_cases {
        let result = parser.parse(input);
        assert!(result.is_ok(), "Failed to parse: {}", input);

        if let Ok(TimeInput::Duration(secs)) = result {
            assert_eq!(secs, expected_seconds, "Wrong duration for: {}", input);
        } else {
            panic!("Expected Duration for: {}", input);
        }
    }
}

#[test]
fn test_chinese_number_parsing() {
    let parser = TimeParser::new();

    let test_cases = vec![("三十分钟", 30 * 60), ("两小时", 2 * 3600), ("五分钟", 5 * 60)];

    for (input, expected_seconds) in test_cases {
        let result = parser.parse(input);
        assert!(result.is_ok(), "Failed to parse Chinese: {}", input);

        if let Ok(TimeInput::Duration(secs)) = result {
            assert_eq!(secs, expected_seconds, "Wrong duration for Chinese: {}", input);
        }
    }
}

#[test]
fn test_absolute_time_parsing() {
    let parser = TimeParser::new();

    assert!(parser.parse("22:30").is_ok());
    assert!(parser.parse("晚上10点").is_ok());
    assert!(parser.parse("下午2:30").is_ok());
}

#[test]
fn test_daily_time_parsing() {
    let parser = TimeParser::new();

    let test_cases = vec![("每天22:00", 22, 0), ("每日8:30", 8, 30)];

    for (input, expected_hour, expected_minute) in test_cases {
        let result = parser.parse(input);
        assert!(result.is_ok(), "Failed to parse daily time: {}", input);

        if let Ok(TimeInput::DailyTime(time)) = result {
            assert_eq!(time.hour, expected_hour, "Wrong hour for: {}", input);
            assert_eq!(time.minute, expected_minute, "Wrong minute for: {}", input);
        } else {
            panic!("Expected DailyTime for: {}", input);
        }
    }
}

#[test]
fn test_natural_language_parsing() {
    let parser = TimeParser::new();

    let test_cases = vec!["半小时后", "明天", "今晚", "中午"];

    for input in test_cases {
        let result = parser.parse(input);
        assert!(result.is_ok(), "Failed to parse natural language: {}", input);
    }
}

#[test]
fn time_parser_test_format_duration() {
    let parser = TimeParser::new();

    let test_cases = vec![
        (30 * 60, "30分钟"),
        (2 * 3600, "2小时"),
        (90 * 60, "1小时30分钟"),
        (86400, "1天"),
    ];

    for (duration_secs, expected) in test_cases {
        let formatted = parser.format_duration(duration_secs);
        assert!(
            formatted.contains(expected),
            "Format mismatch: {} should contain {}",
            formatted,
            expected
        );
    }
}

#[test]
fn test_format_time_input_friendly() {
    let parser = TimeParser::new();

    let duration_input = TimeInput::Duration(30 * 60);
    let formatted = parser.format_time_input_friendly(&duration_input);
    assert!(formatted.contains("后"));

    let daily_input = TimeInput::DailyTime(qtshut::types::ClockTime::new(8, 30, 0));
    let formatted = parser.format_time_input_friendly(&daily_input);
    assert!(formatted.contains("每天"));
}

#[test]
fn test_validation() {
    let parser = TimeParser::new();

    let valid_duration = TimeInput::Duration(30 * 60);
    assert!(parser.validate_time_input(&valid_duration).is_ok());

    let invalid_duration = TimeInput::Duration(5);
    assert!(parser.validate_time_input(&invalid_duration).is_err());

    let too_long_duration = TimeInput::Duration(400 * 86400);
    assert!(parser.validate_time_input(&too_long_duration).is_err());
}

#[test]
fn test_engine_validation_floor() {
    let parser = TimeParser::new();

    // Engine-use validation accepts a duration only above ten seconds
    // and up to a day.
    assert!(parser.validate(&TimeInput::Duration(0)).is_err());
    assert!(parser.validate(&TimeInput::Duration(5)).is_err());
    assert!(parser.validate(&TimeInput::Duration(10)).is_err());
    assert!(parser.validate(&TimeInput::Duration(11)).is_ok());
    assert!(parser.validate(&TimeInput::Duration(86400)).is_ok());
    assert!(parser.validate(&TimeInput::Duration(86401)).is_err());
    assert!(parser.validate(&TimeInput::DailyTime(qtshut::types::ClockTime::new(8, 0, 0))).is_ok());
}

#[test]
fn test_remaining_never_negative() {
    let parser = TimeParser::new();
    assert_eq!(parser.get_remaining_seconds(&TimeInput::Duration(-5)), Ok(0));
    assert_eq!(parser.get_remaining_seconds(&TimeInput::Duration(0)), Ok(0));
    assert!(parser.is_expired(&TimeInput::Duration(-5)));
}

#[test]
fn test_remaining_seconds() {
    let parser = TimeParser::new();

    let duration_input = TimeInput::Duration(30 * 60);
    let remaining = parser.get_remaining_seconds(&duration_input);
    assert!(remaining.is_ok());
    assert_eq!(remaining.unwrap(), 30 * 60);
}

#[test]
fn test_is_expired() {
    let parser = TimeParser::new();

    let future_duration = TimeInput::Duration(30 * 60);
    assert!(!parser.is_expired(&future_duration));

    let past_secs = chrono::Local::now().timestamp() - 3600;
    let past_time = TimeInput::AbsoluteTime(past_secs);
    assert!(parser.is_expired(&past_time));
}

#[test]
fn test_get_format_examples() {
    let parser = TimeParser::new();
    let examples = parser.get_format_examples();

    assert!(!examples.is_empty());
    assert!(examples.iter().any(|(category, _)| category.contains("相对时间")));
    assert!(examples.iter().any(|(category, _)| category.contains("绝对时间")));
    assert!(examples.iter().any(|(category, _)| category.contains("每日时间")));
}

#[test]
fn test_preprocess_chinese_numbers() {
    let parser = TimeParser::new();

    let test_cases = vec![
        ("三十分钟", "30分钟"),
        ("两小时", "2小时"),
        ("五分钟", "5分钟"),
        ("十二点", "12点"),
    ];

    for (input, expected) in test_cases {
        let processed = parser.preprocess_chinese_numbers(input);
        assert_eq!(processed, expected, "Preprocessing failed for: {}", input);
    }
}

#[test]
fn test_invalid_input() {
    let parser = TimeParser::new();

    let invalid_inputs = vec!["无效时间", "", "25:00", "abc"];

    for input in invalid_inputs {
        let result = parser.parse(input);
        if input.is_empty() || input == "abc" || input == "无效时间" {
            assert!(result.is_err(), "Should fail to parse: {}", input);
        }
    }
}

#[test]
fn test_invalid_clock_rejected() {
    let parser = TimeParser::new();
    let result = parser.parse("25:00");
    assert_eq!(result, Err(qtshut::time_parser::TimeError::InvalidClock));
}

#[test]
fn test_daily_parse_scenario() {
    let parser = TimeParser::new();
    assert_eq!(
        parser.parse("每天22:00"),
        Ok(TimeInput::DailyTime(qtshut::types::ClockTime::new(22, 0, 0)))
    );
    assert_eq!(parser.parse("30分钟"), Ok(TimeInput::Duration(1800)));
}

#[test]
fn test_daily_remaining_rolls_to_tomorrow() {
    let parser = TimeParser::new();
    let now = chrono::Local::now();
    let passed_hour = if chrono::Timelike::hour(&now) > 0 { 0u8 } else { 23u8 };
    let daily = TimeInput::DailyTime(qtshut::types::ClockTime::new(passed_hour, 0, 0));
    let remaining = parser.get_remaining_seconds(&daily).unwrap();
    assert!(remaining > 0);
    assert!(remaining <= 86400);
}
