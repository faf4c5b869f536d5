use sysfetch::facts::{collect_lines, HostFacts};
use sysfetch::format::MemoryStatus;
use sysfetch::line::InfoLine;

fn host() -> HostFacts {
    HostFacts {
        username: "alice".to_string(),
        hostname: "wonderland".to_string(),
        distro: "Arch Linux".to_string(),
        arch: "x86_64".to_string(),
        kernel: Some("6.9.1-arch1-1".to_string()),
        uptime: Ok(5400),
        cpu: "AMD Ryzen 7 5800X".to_string(),
        gpus: vec![],
        memory: Ok(MemoryStatus { used: 2097152, total: 17179869184 }),
    }
}

fn fact(label: &str, value: &str) -> InfoLine {
    InfoLine::Normal { label: label.to_string(), value: value.to_string() }
}

fn labels(lines: &Vec<InfoLine>) -> Vec<String> {
    let mut out = Vec::new();
    for line in lines.iter() {
        if let InfoLine::Normal { label, .. } = line {
            out.push(label.clone());
        }
    }
    out
}

#[test]
fn lines_come_in_the_fixed_order() {
    let mut facts = host();
    facts.gpus = vec!["Radeon RX 6800".to_string()];
    let lines = collect_lines(&facts).unwrap();
    let expected = vec![
        InfoLine::Top { username: "alice".to_string(), hostname: "wonderland".to_string() },
        InfoLine::Separator(16),
        fact("os", "Arch Linux x86_64"),
        fact("kernel", "6.9.1-arch1-1"),
        fact("uptime", "1h 30m"),
        fact("cpu", "AMD Ryzen 7 5800X"),
        fact("gpu", "Radeon RX 6800"),
        fact("memory", "2048MiB / 16384MiB"),
    ];
    assert_eq!(lines, expected);
}

#[test]
fn separator_is_as_wide_as_the_title() {
    let mut facts = host();
    facts.username = "x".to_string();
    facts.hostname = "y".to_string();
    let lines = collect_lines(&facts).unwrap();
    assert_eq!(lines[0].len(), 3);
    assert_eq!(lines[1], InfoLine::Separator(3));
    assert_eq!(lines[1].plain(), "---");
}

#[test]
fn separator_counts_the_characters_of_the_title() {
    let mut facts = host();
    facts.username = "josé".to_string();
    facts.hostname = "münchen".to_string();
    let lines = collect_lines(&facts).unwrap();
    assert_eq!(lines[1], InfoLine::Separator(4 + 1 + 7));
}

#[test]
fn no_devices_no_gpu_lines() {
    let facts = host();
    let lines = collect_lines(&facts).unwrap();
    assert_eq!(lines.len(), 7);
    assert_eq!(labels(&lines), vec!["os", "kernel", "uptime", "cpu", "memory"]);
    assert_eq!(lines[5], fact("cpu", "AMD Ryzen 7 5800X"));
    assert_eq!(lines[6], fact("memory", "2048MiB / 16384MiB"));
}

#[test]
fn one_gpu_line_for_each_device_in_order() {
    let mut facts = host();
    facts.gpus = vec!["first".to_string(), "second".to_string(), "third".to_string()];
    let lines = collect_lines(&facts).unwrap();
    assert_eq!(lines.len(), 10);
    assert_eq!(lines[6], fact("gpu", "first"));
    assert_eq!(lines[7], fact("gpu", "second"));
    assert_eq!(lines[8], fact("gpu", "third"));
    assert_eq!(lines[9], fact("memory", "2048MiB / 16384MiB"));
}

#[test]
fn failed_memory_query_shows_its_message() {
    let mut facts = host();
    facts.memory = Err("permission denied".to_string());
    let lines = collect_lines(&facts).unwrap();
    assert_eq!(lines.len(), 7);
    assert_eq!(lines[6], fact("memory", "permission denied"));
    assert_eq!(lines[6].plain(), "memory: permission denied");
    assert_eq!(lines[6].len(), 6 + 2 + 17);
}

#[test]
fn failed_memory_query_changes_no_other_line() {
    let good = collect_lines(&host()).unwrap();
    let mut facts = host();
    facts.memory = Err("permission denied".to_string());
    let degraded = collect_lines(&facts).unwrap();
    assert_eq!(good.len(), degraded.len());
    for i in 0..6 {
        assert_eq!(good[i], degraded[i]);
    }
}

#[test]
fn missing_kernel_version_shows_unknown() {
    let mut facts = host();
    facts.kernel = None;
    let lines = collect_lines(&facts).unwrap();
    assert_eq!(lines[3], fact("kernel", "unknown"));
}

#[test]
fn failed_uptime_query_gives_no_lines() {
    let mut facts = host();
    facts.uptime = Err("sysinfo failed".to_string());
    assert_eq!(collect_lines(&facts), Err("sysinfo failed".to_string()));
}

#[test]
fn failed_uptime_query_wins_over_failed_memory_query() {
    let mut facts = host();
    facts.uptime = Err("sysinfo failed".to_string());
    facts.memory = Err("permission denied".to_string());
    assert_eq!(collect_lines(&facts), Err("sysinfo failed".to_string()));
}

#[test]
fn uptime_line_is_formatted_from_seconds() {
    let mut facts = host();
    facts.uptime = Ok(3661);
    let lines = collect_lines(&facts).unwrap();
    assert_eq!(lines[4], fact("uptime", "1h 01m"));
    facts.uptime = Ok(59);
    let lines = collect_lines(&facts).unwrap();
    assert_eq!(lines[4], fact("uptime", "0h 00m"));
}

#[test]
fn os_line_joins_distribution_and_architecture() {
    let mut facts = host();
    facts.distro = "Debian GNU/Linux 12 (bookworm)".to_string();
    facts.arch = "aarch64".to_string();
    let lines = collect_lines(&facts).unwrap();
    assert_eq!(lines[2], fact("os", "Debian GNU/Linux 12 (bookworm) aarch64"));
    facts.distro = String::new();
    facts.arch = String::new();
    let lines = collect_lines(&facts).unwrap();
    assert_eq!(lines[2], fact("os", " "));
}

#[test]
fn collecting_leaves_the_facts_as_they_were() {
    let facts = host();
    let first = collect_lines(&facts).unwrap();
    let second = collect_lines(&facts).unwrap();
    assert_eq!(first, second);
    assert_eq!(facts.username, "alice");
}
