use borg_exporter::classify_query_output;
use borg_exporter::normalize;
use borg_exporter::normalize_with_offset;
use borg_exporter::parse;
use borg_exporter::render_status;
use borg_exporter::repo_label;
use borg_exporter::repo_metrics;
use borg_exporter::scrape_on_event;
use borg_exporter::scrape_start;
use borg_exporter::BorgResponseCacheStats;
use borg_exporter::Config;
use borg_exporter::ParseError;
use borg_exporter::QueryEvent;
use borg_exporter::QueryVerdict;
use borg_exporter::ScrapeAction;
use borg_exporter::ScrapeError;
use borg_exporter::TimestampError;
use borg_exporter::RETRY_DELAY_SECS;

const STATUS_JSON: &str = r#"{
  "cache": {
    "path": "/root/.cache/borg/abcd",
    "stats": {
      "total_chunks": 1000,
      "total_csize": 123,
      "total_size": 456,
      "total_unique_chunks": 70,
      "unique_csize": 10,
      "unique_size": 20
    }
  },
  "encryption": {"mode": "repokey"},
  "repository": {
    "id": "abcd",
    "last_modified": "2023-05-01T10:15:30.123456",
    "location": "/data/backups/myrepo"
  },
  "security_dir": "/root/.config/borg/security/abcd"
}"#;

fn status_stats() -> BorgResponseCacheStats {
    BorgResponseCacheStats {
        total_chunks: 1000,
        total_csize: 123,
        total_size: 456,
        total_unique_chunks: 70,
        unique_csize: 10,
        unique_size: 20,
    }
}

#[test]
fn default_config() {
    let c = Config::new_default();
    assert_eq!(c.port, 9002);
    assert!(c.repositories.is_empty());
}

#[test]
fn timestamp_round_trip_utc() {
    let r = normalize_with_offset("2023-05-01T10:15:30.123456", 0);
    assert_eq!(r, Ok(1682936130));
}

#[test]
fn timestamp_round_trip_fixed_offset() {
    let r = normalize_with_offset("2023-05-01T10:15:30.123456", 3600);
    assert_eq!(r, Ok(1682936130 - 3600));
}

#[test]
fn timestamp_before_epoch() {
    let r = normalize_with_offset("1969-12-31T23:59:59.0", 0);
    assert_eq!(r, Ok(-1));
}

#[test]
fn timestamp_epoch_origin() {
    let r = normalize_with_offset("1970-01-01T00:00:00.000000", 0);
    assert_eq!(r, Ok(0));
}

#[test]
fn timestamp_missing_dot_rejected() {
    let r = normalize_with_offset("2023-05-01T10:15:30", 0);
    assert_eq!(r, Err(TimestampError::MissingDot));
    let r2 = normalize("2023-05-01T10:15:30");
    assert_eq!(r2, Err(TimestampError::MissingDot));
}

#[test]
fn timestamp_bad_month_rejected() {
    let r = normalize_with_offset("2023-13-01T10:15:30.5", 0);
    assert_eq!(r, Err(TimestampError::BadFormat));
}

#[test]
fn timestamp_short_head_rejected() {
    let r = normalize_with_offset("23-05-01T10:15:30.5", 0);
    assert_eq!(r, Err(TimestampError::BadFormat));
}

#[test]
fn timestamp_nonleap_feb_29_rejected() {
    let r = normalize_with_offset("2023-02-29T00:00:00.0", 0);
    assert_eq!(r, Err(TimestampError::BadFormat));
}

#[test]
fn timestamp_leap_feb_29_accepted() {
    let r = normalize_with_offset("2024-02-29T00:00:00.0", 0);
    assert_eq!(r, Ok(1709164800));
}

#[test]
fn timestamp_local_offset_is_bounded() {
    // Whatever the test machine's timezone, a successful local
    // normalization stays within one day of the UTC interpretation.
    let utc = 1682936130_i64;
    let r = normalize("2023-05-01T10:15:30.123456").expect("a plain daytime instant");
    assert!((r - utc).abs() < 86400);
}

#[test]
fn parse_reads_counters_and_timestamp() {
    let doc = parse(STATUS_JSON.as_bytes()).expect("document parses");
    assert_eq!(doc.cache.stats, status_stats());
    assert_eq!(doc.repository.last_modified, "2023-05-01T10:15:30.123456");
}

#[test]
fn parse_rejects_malformed_json() {
    let r = parse(b"{not json".as_slice());
    assert_eq!(r.unwrap_err(), ParseError::Json);
}

#[test]
fn parse_rejects_missing_field() {
    let json = r#"{"cache":{"stats":{"total_chunks":1,"total_csize":2,
        "total_unique_chunks":4,"unique_csize":5,"unique_size":6}},
        "repository":{"last_modified":"2023-05-01T10:15:30.1"}}"#;
    let r = parse(json.as_bytes());
    assert_eq!(r.unwrap_err(), ParseError::Field);
}

#[test]
fn parse_rejects_mistyped_field() {
    let json = r#"{"cache":{"stats":{"total_chunks":1,"total_csize":2,"total_size":3,
        "total_unique_chunks":4,"unique_csize":5,"unique_size":6}},
        "repository":{"last_modified":42}}"#;
    let r = parse(json.as_bytes());
    assert_eq!(r.unwrap_err(), ParseError::Field);
}

#[test]
fn label_of_plain_path() {
    assert_eq!(repo_label("/data/backups/myrepo").unwrap(), "myrepo");
}

#[test]
fn label_ignores_trailing_separators() {
    assert_eq!(repo_label("/data/backups/myrepo///").unwrap(), "myrepo");
}

#[test]
fn label_of_bare_name() {
    assert_eq!(repo_label("myrepo").unwrap(), "myrepo");
}

#[test]
fn label_keeps_unicode_names() {
    assert_eq!(repo_label("/data/b\u{e4}ckups/rep\u{f6}").unwrap(), "rep\u{f6}");
}

#[test]
fn timestamp_negative_offset() {
    let r = normalize_with_offset("2023-05-01T10:15:30.123456", -3600);
    assert_eq!(r, Ok(1682936130 + 3600));
}

#[test]
fn label_of_root_rejected() {
    assert_eq!(repo_label("/").unwrap_err(), ScrapeError::InvalidRepoPath);
    assert_eq!(repo_label("///").unwrap_err(), ScrapeError::InvalidRepoPath);
    assert_eq!(repo_label("").unwrap_err(), ScrapeError::InvalidRepoPath);
}

#[test]
fn classify_success() {
    assert_eq!(classify_query_output(true, ""), QueryVerdict::Payload);
}

#[test]
fn classify_lock_conflict() {
    assert_eq!(
        classify_query_output(false, "Failed to create/acquire the lock..."),
        QueryVerdict::Locked
    );
    assert_eq!(
        classify_query_output(false, "Failed to create/acquire the lock"),
        QueryVerdict::Locked
    );
}

#[test]
fn classify_other_failures() {
    assert_eq!(classify_query_output(false, "boom"), QueryVerdict::Failed);
    assert_eq!(
        classify_query_output(false, "Failed to create/acquir"),
        QueryVerdict::Failed
    );
    assert_eq!(classify_query_output(false, ""), QueryVerdict::Failed);
}

fn expected_render(label: &str, epoch: i64) -> String {
    let s = status_stats();
    let mut out = String::new();
    let gauges: [(&str, u64); 6] = [
        ("borg_total_chunks", s.total_chunks),
        ("borg_total_csize", s.total_csize),
        ("borg_total_size", s.total_size),
        ("borg_total_unique_chunks", s.total_unique_chunks),
        ("borg_unique_csize", s.unique_csize),
        ("borg_unique_size", s.unique_size),
    ];
    for (name, value) in gauges {
        out.push_str(&format!(
            "# HELP {name} borg-prometheus-exporter\n# TYPE {name} gauge\n{name}{{repository=\"{label}\"}} {value}\n"
        ));
    }
    out.push_str(&format!(
        "# HELP borg_last_modified borg-prometheus-exporter\n# TYPE borg_last_modified counter\nborg_last_modified{{repository=\"{label}\"}} {epoch}\n"
    ));
    out
}

#[test]
fn render_exact_text() {
    let text = render_status("myrepo", &status_stats(), 1682936130);
    assert_eq!(text, expected_render("myrepo", 1682936130));
}

#[test]
fn render_has_21_lines_in_fixed_order() {
    let text = render_status("r", &status_stats(), 7);
    let lines: Vec<&str> = text.lines().collect();
    assert_eq!(lines.len(), 21);
    assert_eq!(text.matches('\n').count(), 21);
    let names = [
        "borg_total_chunks",
        "borg_total_csize",
        "borg_total_size",
        "borg_total_unique_chunks",
        "borg_unique_csize",
        "borg_unique_size",
        "borg_last_modified",
    ];
    for (i, name) in names.iter().enumerate() {
        assert_eq!(lines[3 * i], format!("# HELP {name} borg-prometheus-exporter"));
        let mtype = if *name == "borg_last_modified" { "counter" } else { "gauge" };
        assert_eq!(lines[3 * i + 1], format!("# TYPE {name} {mtype}"));
        assert!(lines[3 * i + 2].starts_with(&format!("{name}{{repository=\"r\"}} ")));
    }
}

#[test]
fn render_extreme_values() {
    let stats = BorgResponseCacheStats {
        total_chunks: u64::MAX,
        total_csize: 0,
        total_size: 0,
        total_unique_chunks: 0,
        unique_csize: 0,
        unique_size: 0,
    };
    let text = render_status("r", &stats, -62167219200);
    assert!(text.contains("borg_total_chunks{repository=\"r\"} 18446744073709551615\n"));
    assert!(text.contains("borg_total_csize{repository=\"r\"} 0\n"));
    assert!(text.contains("borg_last_modified{repository=\"r\"} -62167219200\n"));
}

#[test]
fn repo_metrics_renders_document() {
    let text = repo_metrics("/data/backups/myrepo", STATUS_JSON.as_bytes()).unwrap();
    let epoch = normalize("2023-05-01T10:15:30.123456").unwrap();
    assert_eq!(text, expected_render("myrepo", epoch));
}

#[test]
fn repo_metrics_rejects_bad_path() {
    let r = repo_metrics("/", STATUS_JSON.as_bytes());
    assert_eq!(r.unwrap_err(), ScrapeError::InvalidRepoPath);
}

#[test]
fn repo_metrics_rejects_bad_json() {
    let r = repo_metrics("/data/backups/myrepo", b"nope".as_slice());
    assert_eq!(r.unwrap_err(), ScrapeError::Parse(ParseError::Json));
}

#[test]
fn repo_metrics_rejects_bad_timestamp() {
    let json = r#"{"cache":{"stats":{"total_chunks":1,"total_csize":2,"total_size":3,
        "total_unique_chunks":4,"unique_csize":5,"unique_size":6}},
        "repository":{"last_modified":"2023-05-01T10:15:30"}}"#;
    let r = repo_metrics("/data/backups/myrepo", json.as_bytes());
    assert_eq!(
        r.unwrap_err(),
        ScrapeError::Timestamp(TimestampError::MissingDot)
    );
}

#[test]
fn empty_repository_list_responds_empty() {
    let config = Config { port: 9002, repositories: vec![] };
    let (state, action) = scrape_start(&config);
    assert_eq!(state.next, 0);
    match action {
        ScrapeAction::Respond { body } => assert_eq!(body, ""),
        _ => panic!("an empty list must respond at once"),
    }
}

fn good_event() -> QueryEvent {
    QueryEvent::Completed {
        success: true,
        stdout: STATUS_JSON.as_bytes().to_vec(),
        stderr: String::new(),
    }
}

#[test]
fn second_repository_failure_aborts_whole_scrape() {
    let config = Config {
        port: 9002,
        repositories: vec!["/data/backups/one".to_string(), "/data/backups/two".to_string()],
    };
    let (state, action) = scrape_start(&config);
    match &action {
        ScrapeAction::RunQuery { path } => assert_eq!(path, "/data/backups/one"),
        _ => panic!("the first repository must be queried"),
    }
    let (state, action) = scrape_on_event(&config, state, good_event());
    assert_eq!(state.next, 1);
    assert!(!state.body.is_empty());
    match &action {
        ScrapeAction::RunQuery { path } => assert_eq!(path, "/data/backups/two"),
        _ => panic!("the second repository must be queried"),
    }
    let failure = QueryEvent::Completed {
        success: false,
        stdout: vec![],
        stderr: "boom".to_string(),
    };
    let (_state, action) = scrape_on_event(&config, state, failure);
    match action {
        ScrapeAction::Reject { error } => {
            assert_eq!(error, ScrapeError::Command("boom".to_string()));
        },
        _ => panic!("the whole scrape must be rejected, with no metrics body"),
    }
}

#[test]
fn invalid_first_path_rejected_before_any_query() {
    let config = Config { port: 9002, repositories: vec!["/".to_string()] };
    let (state, action) = scrape_start(&config);
    assert_eq!(state.next, 0);
    match action {
        ScrapeAction::Reject { error } => assert_eq!(error, ScrapeError::InvalidRepoPath),
        _ => panic!("a path with no base name must be rejected before any query"),
    }
}

#[test]
fn invalid_second_path_rejected_before_its_query() {
    let config = Config {
        port: 9002,
        repositories: vec!["/data/backups/one".to_string(), "///".to_string()],
    };
    let (state, action) = scrape_start(&config);
    match &action {
        ScrapeAction::RunQuery { path } => assert_eq!(path, "/data/backups/one"),
        _ => panic!("the first, valid repository must be queried"),
    }
    let (_state, action) = scrape_on_event(&config, state, good_event());
    match action {
        ScrapeAction::Reject { error } => assert_eq!(error, ScrapeError::InvalidRepoPath),
        _ => panic!("the invalid second path must abort the scrape without a query"),
    }
}

#[test]
fn spawn_failure_aborts_scrape() {
    let config = Config { port: 9002, repositories: vec!["/data/backups/one".to_string()] };
    let (state, _action) = scrape_start(&config);
    let (_state, action) = scrape_on_event(&config, state, QueryEvent::SpawnFailed);
    match action {
        ScrapeAction::Reject { error } => assert_eq!(error, ScrapeError::Spawn),
        _ => panic!("a spawn failure must reject the scrape"),
    }
}

#[test]
fn locked_repository_is_retried_each_time_with_fixed_delay() {
    let config = Config { port: 9002, repositories: vec!["/data/backups/one".to_string()] };
    let (mut state, mut action) = scrape_start(&config);
    let mut retries: u32 = 0;
    for _ in 0..2 {
        let lock_event = QueryEvent::Completed {
            success: false,
            stdout: vec![],
            stderr: "Failed to create/acquire the lock...".to_string(),
        };
        let (s, a) = scrape_on_event(&config, state, lock_event);
        state = s;
        action = a;
        match &action {
            ScrapeAction::RetryAfterDelay { path, delay_secs } => {
                retries += 1;
                assert_eq!(path, "/data/backups/one");
                assert_eq!(*delay_secs, RETRY_DELAY_SECS);
                assert_eq!(*delay_secs, 5);
            },
            _ => panic!("a lock conflict must be retried"),
        }
        assert_eq!(state.next, 0);
        assert_eq!(state.body, "");
    }
    assert_eq!(retries, 2);
    let (state, action) = scrape_on_event(&config, state, good_event());
    assert_eq!(state.next, 1);
    let epoch = normalize("2023-05-01T10:15:30.123456").unwrap();
    match action {
        ScrapeAction::Respond { body } => assert_eq!(body, expected_render("one", epoch)),
        _ => panic!("after the lock clears the scrape must succeed"),
    }
}
