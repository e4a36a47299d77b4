use desktop_pet::battery::{BatteryCollector, PowerSupplyEntry};
use desktop_pet::config::{TelemetryDaemonConfig, DEFAULT_SOCKET_PATH};
use desktop_pet::cpu::{calculate_cpu_usage, parse_proc_stat, CpuCollector, CpuSnapshot};
use desktop_pet::git::{commit_at, locate_repo, parse_git_log_head, path_is_under, roots_to_reread};
use desktop_pet::types::{ActiveWindowInfo, CpuLoad, TelemetryEvent};

fn entry(name: &str, capacity: Option<&str>) -> PowerSupplyEntry {
    PowerSupplyEntry { name: name.to_string(), capacity: capacity.map(|c| c.to_string()) }
}

#[test]
fn test_battery_collector_with_mock() {
    // A power-supply directory holding BAT0 whose capacity file reads "85\n".
    let collector = BatteryCollector::with_path("/tmp/mock/power_supply");
    assert_eq!(collector.sample(&vec![entry("BAT0", Some("85\n"))]), Some(85));
}

#[test]
fn test_battery_collector_missing() {
    // An empty power-supply directory.
    let collector = BatteryCollector::with_path("/tmp/mock/empty");
    assert_eq!(collector.sample(&vec![]), None);
}

#[test]
fn battery_skips_non_batteries_and_bad_capacities() {
    let collector = BatteryCollector::new();
    assert_eq!(collector.sys_path(), "/sys/class/power_supply");
    let entries = vec![
        entry("AC", Some("100")),
        entry("BAT0", None),
        entry("BAT1", Some("full")),
        entry("BAT2", Some(" +250 \n")),
        entry("BAT3", Some("40")),
    ];
    assert_eq!(collector.sample(&entries), Some(100));
    assert_eq!(collector.sample(&vec![entry("BAT9", Some("256"))]), None);
    assert_eq!(collector.sample(&vec![entry("bat0", Some("50"))]), None);
}

#[test]
fn test_parse_proc_stat() {
    let data = "cpu  101 20 30 400 5 6 7 8 0 0\ncpu0 50 10 15 200 2 3 3 4 0 0\n";
    let snap = parse_proc_stat(data.as_bytes()).unwrap();
    assert_eq!(snap.user, 101);
    assert_eq!(snap.idle, 400);
    assert_eq!(snap.total(), 101 + 20 + 30 + 400 + 5 + 6 + 7 + 8);
}

#[test]
fn proc_stat_edge_cases() {
    // Short aggregate lines are passed over.
    let data = "cpu  1 2 3\ncpu  1 2 3 4 5 x 7 8\n";
    let snap = parse_proc_stat(data.as_bytes()).unwrap();
    assert_eq!((snap.user, snap.iowait, snap.irq, snap.softirq), (1, 5, 0, 7));
    // A bad leading counter gives nothing.
    assert_eq!(parse_proc_stat(b"cpu  a 2 3 4 5 6 7 8\n"), None);
    // No aggregate line.
    assert_eq!(parse_proc_stat(b"cpu0 1 2 3 4 5 6 7 8\n"), None);
    // A line that is not UTF-8 before the aggregate line stops the reading.
    assert_eq!(parse_proc_stat(b"intr \xff\ncpu  1 2 3 4 5 6 7 8\n"), None);
    // CRLF line ends and a final line without a line feed.
    let snap = parse_proc_stat(b"x\r\ncpu  +1 2 3 4 5 6 7 18446744073709551615").unwrap();
    assert_eq!((snap.user, snap.steal), (1, u64::MAX));
    assert_eq!(parse_proc_stat(b"cpu  1 2 3 18446744073709551616 5 6 7 8"), None);
}

#[test]
fn test_calculate_cpu_usage() {
    let snap1 = CpuSnapshot {
        user: 100,
        nice: 0,
        system: 0,
        idle: 100,
        iowait: 0,
        irq: 0,
        softirq: 0,
        steal: 0,
    };
    let snap2 = CpuSnapshot {
        user: 150,
        nice: 0,
        system: 0,
        idle: 150,
        iowait: 0,
        irq: 0,
        softirq: 0,
        steal: 0,
    };
    let usage = calculate_cpu_usage(&snap1, &snap2);
    assert_eq!(usage, CpuLoad { busy: 50, total: 100 });
    let percent = (usage.busy as f32 / usage.total as f32) * 100.0;
    assert!((percent - 50.0).abs() < f32::EPSILON);
}

#[test]
fn cpu_usage_edge_cases() {
    let a = CpuSnapshot { user: 10, nice: 0, system: 0, idle: 10, iowait: 0, irq: 0, softirq: 0, steal: 0 };
    assert_eq!(calculate_cpu_usage(&a, &a), CpuLoad { busy: 0, total: 0 });
    assert!(!calculate_cpu_usage(&a, &a).is_high());
    let b = CpuSnapshot { user: 12, idle: 11, ..a };
    // Two busy ticks out of three: exactly two thirds, not 66.66 %.
    assert_eq!(calculate_cpu_usage(&a, &b), CpuLoad { busy: 2, total: 3 });
    // Counters that went backwards count as no time.
    assert_eq!(calculate_cpu_usage(&b, &a), CpuLoad { busy: 0, total: 0 });
    // More idle time than time passed leaves nothing busy.
    let c = CpuSnapshot { idle: 20, iowait: 5, user: 5, ..a };
    assert_eq!(calculate_cpu_usage(&a, &c), CpuLoad { busy: 0, total: 10 });
    assert_eq!(a.idle_total(), 10);
}

#[test]
fn cpu_collector_samples_successive_readings() {
    let mut collector = CpuCollector::with_path("/tmp/stat");
    assert_eq!(collector.proc_stat_path(), "/tmp/stat");
    assert_eq!(CpuCollector::new().proc_stat_path(), "/proc/stat");
    assert_eq!(collector.sample(None), None);
    assert_eq!(collector.sample(Some(b"cpu  100 0 0 100 0 0 0 0\n")), Some(CpuLoad { busy: 0, total: 0 }));
    assert_eq!(collector.sample(Some(b"garbage")), None);
    assert_eq!(collector.sample(Some(b"cpu  175 0 0 125 0 0 0 0\n")), Some(CpuLoad { busy: 75, total: 100 }));
}

#[test]
fn cpu_load_compares_exactly_with_85_percent() {
    assert!(!CpuLoad { busy: 85, total: 100 }.is_high());
    assert!(CpuLoad { busy: 85_004, total: 100_000 }.is_high());
    assert!(!CpuLoad { busy: 17, total: 20 }.is_high());
    assert!(CpuLoad { busy: 6, total: 7 }.is_high());
    assert!(!CpuLoad { busy: 5, total: 0 }.is_high());
    assert!(CpuLoad { busy: u64::MAX, total: u64::MAX }.is_high());
}

#[test]
fn test_parse_git_log_head() {
    let log = "0000000000000000000000000000000000000000 a1b2c3d4e5f67890 User <user@example.com> 1600000000 +0000\tcommit: initial commit\n";
    let event = parse_git_log_head("my-cool-project", log.as_bytes()).unwrap();
    assert_eq!(
        event,
        TelemetryEvent::DevCommit {
            repo: "my-cool-project".to_string(),
            hash: "a1b2c3d4e5f67890".to_string(),
        }
    );
}

#[test]
fn git_log_uses_last_text_line() {
    let log = b"0 aaa u 1 +0\tcommit: a\n0 bbb u 2 +0\tcommit: b\n\xff\xfe\n";
    assert_eq!(
        parse_git_log_head("r", log),
        Some(TelemetryEvent::DevCommit { repo: "r".to_string(), hash: "bbb".to_string() })
    );
    assert_eq!(parse_git_log_head("r", b"0 aaa\nonly\n"), None);
    assert_eq!(parse_git_log_head("r", b""), None);
}

#[test]
fn test_default_config() {
    let config = TelemetryDaemonConfig::default();
    assert_eq!(config.socket_path, DEFAULT_SOCKET_PATH);
}

#[test]
fn config_default_intervals() {
    let config = TelemetryDaemonConfig::default();
    assert_eq!(config.cpu_interval, 10_000_000_000);
    assert_eq!(config.battery_interval, 30_000_000_000);
    assert_eq!(config.idle_interval, 5_000_000_000);
    assert_eq!(config.window_interval, 2_000_000_000);
    assert!(config.proc_stat_path.is_none());
}

#[test]
fn window_info_from_reply() {
    let info = ActiveWindowInfo::from_reply(None);
    assert_eq!(info.class, "unknown");
    assert_eq!(info.title, "unknown");
    let info = ActiveWindowInfo::from_reply(Some(("kitty".to_string(), "vim".to_string())));
    assert_eq!((info.class.as_str(), info.title.as_str()), ("kitty", "vim"));
}

fn comps(parts: &[&str]) -> Vec<String> {
    parts.iter().map(|s| s.to_string()).collect()
}

#[test]
fn locate_repo_reads_through_the_git_dir() {
    let repo = comps(&["/", "tmp", "my-cool-project"]);
    let git = comps(&["/", "tmp", "my-cool-project", ".git"]);
    assert_eq!(locate_repo(&repo), Some((3, "my-cool-project".to_string())));
    assert_eq!(locate_repo(&git), locate_repo(&repo));
    assert_eq!(locate_repo(&comps(&["relative", "repo"])), Some((2, "repo".to_string())));
    assert_eq!(locate_repo(&comps(&["/"])), None);
    assert_eq!(locate_repo(&comps(&["/", ".git"])), None);
    assert_eq!(locate_repo(&comps(&["a", ".."])), None);
    assert_eq!(locate_repo(&comps(&[".git"])), None);
    assert_eq!(locate_repo(&comps(&[])), None);
}

#[test]
fn changed_paths_pick_the_roots_they_lie_under() {
    let roots = vec![comps(&["/", "r", "a"]), comps(&["/", "r"]), comps(&["/", "r", "ab"])];
    let paths = vec![comps(&["/", "r", "a", ".git", "logs", "HEAD"]), comps(&["/", "x"]), comps(&["/", "r", "ab"])];
    assert_eq!(roots_to_reread(true, &paths, &roots), vec![0, 1, 1, 2]);
    assert_eq!(roots_to_reread(false, &paths, &roots), Vec::<usize>::new());
    assert!(!path_is_under(&comps(&["/", "r", "ab"]), &comps(&["/", "r", "a"])));
    assert!(path_is_under(&comps(&["/", "r"]), &comps(&[])));
    assert!(!path_is_under(&comps(&["/"]), &comps(&["/", "r"])));
}

#[test]
fn repo_and_git_dir_give_the_same_commit() {
    let log = b"0 a1b2 U <u@e> 1 +0000\tcommit: one\n0 c3d4 U <u@e> 2 +0000\tcommit: two\n";
    let expected = Some(TelemetryEvent::DevCommit { repo: "proj".to_string(), hash: "c3d4".to_string() });
    let repo = comps(&["/", "src", "proj"]);
    let git = comps(&["/", "src", "proj", ".git"]);
    assert_eq!(commit_at(&repo, Some(log)), expected);
    assert_eq!(commit_at(&git, Some(log)), expected);
    assert_eq!(commit_at(&repo, None), None);
    assert_eq!(commit_at(&comps(&["/"]), Some(log)), None);
    assert_eq!(commit_at(&repo, Some(b"single\n")), None);
}

#[test]
fn checked_total_sums_when_it_fits() {
    let a = CpuSnapshot { user: 10, nice: 1, system: 2, idle: 3, iowait: 4, irq: 5, softirq: 6, steal: 7 };
    assert_eq!(a.checked_total(), Some(38));
    let b = CpuSnapshot { user: u64::MAX, ..a };
    assert_eq!(b.checked_total(), None);
}
