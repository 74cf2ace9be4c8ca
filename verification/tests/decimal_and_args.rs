use gameforge::args::{arg_value, group_server_args, parse_group_args, ArgError};
use gameforge::decimal::{decimal_string, parse_unsigned_text};

fn strings(items: &[&str]) -> Vec<String> {
    items.iter().map(|s| s.to_string()).collect()
}

#[test]
fn decimal_text_matches_to_string() {
    for n in [0u64, 7, 10, 99, 100, 65535, 1_000_000, u64::MAX] {
        assert_eq!(decimal_string(n), n.to_string());
    }
}

#[test]
fn parse_accepts_what_std_accepts() {
    for text in ["0", "42", "+7", "0065535", "65535", "65536", "", "+", "-1", "12a", " 1", "1 ", "++1", "+-1"] {
        let ours = parse_unsigned_text(text, u16::MAX as u64).map(|v| v as u16);
        assert_eq!(ours, text.parse::<u16>().ok(), "text {:?}", text);
    }
    for text in ["18446744073709551615", "18446744073709551616", "300", "abc"] {
        assert_eq!(parse_unsigned_text(text, u64::MAX), text.parse::<u64>().ok(), "text {:?}", text);
    }
}

#[test]
fn parse_reads_back_decimal_text() {
    for n in [0u64, 1, 9, 10, 4000, 65535] {
        assert_eq!(parse_unsigned_text(&decimal_string(n), 65535), Some(n));
    }
    assert_eq!(parse_unsigned_text(&decimal_string(65536), 65535), None);
}

#[test]
fn arg_value_takes_value_after_first_occurrence() {
    let args = strings(&["prog", "--group", "demo", "--group", "other"]);
    assert_eq!(arg_value(&args, "--group"), Some("demo".to_string()));
    assert_eq!(arg_value(&args, "--db"), None);
    let trailing = strings(&["prog", "--port"]);
    assert_eq!(arg_value(&trailing, "--port"), None);
    assert_eq!(arg_value(&[], "--port"), None);
    let value_is_flag = strings(&["prog", "--group", "--db", "x"]);
    assert_eq!(arg_value(&value_is_flag, "--db"), Some("x".to_string()));
    assert_eq!(arg_value(&value_is_flag, "--group"), Some("--db".to_string()));
}

#[test]
fn parse_group_args_reads_full_command_line() {
    let args = strings(&["prog", "--group", "demo", "--db", "data/de/demo/game.db", "--port", "4100", "--idle-seconds", "60"]);
    let c = parse_group_args(&args).ok().unwrap();
    assert_eq!(c.group_id, "demo");
    assert_eq!(c.db_path, "data/de/demo/game.db");
    assert_eq!(c.port, 4100);
    assert_eq!(c.idle_secs, 60);
}

#[test]
fn parse_group_args_defaults_idle_seconds() {
    let args = strings(&["prog", "--group", "g", "--db", "d", "--port", "1"]);
    assert_eq!(parse_group_args(&args).ok().unwrap().idle_secs, 300);
}

#[test]
fn parse_group_args_errors() {
    let cases: Vec<(Vec<String>, ArgError, &str)> = vec![
        (strings(&["prog"]), ArgError::MissingGroup, "missing --group"),
        (strings(&["prog", "--group", "g"]), ArgError::MissingDb, "missing --db"),
        (strings(&["prog", "--group", "g", "--db", "d"]), ArgError::MissingPort, "missing --port"),
        (strings(&["prog", "--group", "g", "--db", "d", "--port", "70000"]), ArgError::InvalidPort, "invalid --port"),
        (strings(&["prog", "--group", "g", "--db", "d", "--port", "x"]), ArgError::InvalidPort, "invalid --port"),
        (
            strings(&["prog", "--group", "g", "--db", "d", "--port", "5", "--idle-seconds", "-3"]),
            ArgError::InvalidIdleSeconds,
            "invalid --idle-seconds",
        ),
    ];
    for (args, err, message) in cases {
        match parse_group_args(&args) {
            Err(e) => {
                assert_eq!(e, err);
                assert_eq!(e.message(), message);
            }
            Ok(_) => panic!("expected {:?}", err),
        }
    }
}

#[test]
fn launch_args_round_trip() {
    let mut argv = vec!["/usr/bin/gameforge-group-server".to_string()];
    argv.extend(group_server_args("guild-001", "./data/groups/gu/guild-001/game.db", 40123, 300));
    assert_eq!(
        argv[1..].to_vec(),
        strings(&["--group", "guild-001", "--db", "./data/groups/gu/guild-001/game.db", "--port", "40123", "--idle-seconds", "300"])
    );
    let c = parse_group_args(&argv).ok().unwrap();
    assert_eq!(c.group_id, "guild-001");
    assert_eq!(c.db_path, "./data/groups/gu/guild-001/game.db");
    assert_eq!(c.port, 40123);
    assert_eq!(c.idle_secs, 300);
}

#[test]
fn launch_args_round_trip_fails_for_flag_named_group() {
    // A group called "--db" is a valid group id, but reads back wrongly.
    let mut argv = vec!["prog".to_string()];
    argv.extend(group_server_args("--db", "x/game.db", 1, 2));
    let c = parse_group_args(&argv).ok().unwrap();
    assert_eq!(c.group_id, "--db");
    assert_eq!(c.db_path, "--db");
}
