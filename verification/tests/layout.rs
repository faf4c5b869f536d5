use sysfetch::facts::{collect_lines, HostFacts};
use sysfetch::format::MemoryStatus;
use sysfetch::layout::{compose_row, logo_width, plain_rows};
use sysfetch::line::InfoLine;
use sysfetch::logo::arch_logo;

fn strings(rows: &[&str]) -> Vec<String> {
    rows.iter().map(|row| row.to_string()).collect()
}

fn fact(label: &str, value: &str) -> InfoLine {
    InfoLine::Normal { label: label.to_string(), value: value.to_string() }
}

fn host() -> HostFacts {
    HostFacts {
        username: "alice".to_string(),
        hostname: "wonderland".to_string(),
        distro: "Arch Linux".to_string(),
        arch: "x86_64".to_string(),
        kernel: Some("6.9.1-arch1-1".to_string()),
        uptime: Ok(5400),
        cpu: "AMD Ryzen 7 5800X".to_string(),
        gpus: vec![],
        memory: Ok(MemoryStatus { used: 2097152, total: 17179869184 }),
    }
}

#[test]
fn logo_has_its_seven_rows() {
    let logo = arch_logo();
    let expected = strings(&[
        "      /#\\",
        "     /###\\",
        "    /p^###\\",
        "   /##P^q##\\",
        "  /##(   )##\\",
        " /###P   q#,^\\",
        "/P^         ^q\\",
    ]);
    assert_eq!(logo, expected);
}

#[test]
fn logo_rows_grow_by_one_character() {
    let logo = arch_logo();
    for (i, row) in logo.iter().enumerate() {
        assert_eq!(row.chars().count(), 9 + i);
    }
    assert_eq!(logo_width(&logo), 15);
}

#[test]
fn width_is_that_of_the_longest_row() {
    assert_eq!(logo_width(&strings(&["ab", "abcd", "a"])), 4);
    assert_eq!(logo_width(&strings(&["abcd", "ab"])), 4);
    assert_eq!(logo_width(&strings(&["", ""])), 0);
    assert_eq!(logo_width(&strings(&["x"])), 1);
}

#[test]
fn width_of_no_rows_is_zero() {
    assert_eq!(logo_width(&Vec::new()), 0);
}

#[test]
fn width_counts_characters_not_bytes() {
    assert_eq!(logo_width(&strings(&["äöü", "ab"])), 3);
}

#[test]
fn compose_row_fills_and_parts() {
    assert_eq!(compose_row("ab", 2, "u@h"), "ab   u@h");
    assert_eq!(compose_row("abcd", 0, "---"), "abcd ---");
    assert_eq!(compose_row("", 0, ""), " ");
    assert_eq!(compose_row("", 3, "x"), "    x");
}

#[test]
fn logo_longer_than_facts() {
    let logo = strings(&["ab", "abcd", "a"]);
    let info = vec![
        InfoLine::Top { username: "u".to_string(), hostname: "h".to_string() },
        InfoLine::Separator(3),
    ];
    let rows = plain_rows(&logo, &info);
    assert_eq!(rows, strings(&["ab   u@h", "abcd ---", "a    "]));
}

#[test]
fn facts_longer_than_logo() {
    let logo = strings(&["ab"]);
    let info = vec![fact("x", "1"), fact("y", "2"), fact("z", "3")];
    let rows = plain_rows(&logo, &info);
    assert_eq!(rows, strings(&["ab x: 1", "   y: 2", "   z: 3"]));
}

#[test]
fn columns_of_equal_length() {
    let logo = strings(&["#", "##"]);
    let info = vec![fact("a", "b"), InfoLine::Separator(2)];
    let rows = plain_rows(&logo, &info);
    assert_eq!(rows, strings(&["#  a: b", "## --"]));
}

#[test]
fn no_logo_leaves_the_parting_space() {
    let info = vec![fact("a", "b")];
    let rows = plain_rows(&Vec::new(), &info);
    assert_eq!(rows, strings(&[" a: b"]));
}

#[test]
fn no_facts_leaves_the_filled_logo() {
    let logo = strings(&["ab", "a"]);
    let rows = plain_rows(&logo, &Vec::new());
    assert_eq!(rows, strings(&["ab ", "a  "]));
}

#[test]
fn nothing_at_all_gives_no_rows() {
    let rows = plain_rows(&Vec::new(), &Vec::new());
    assert_eq!(rows.len(), 0);
}

#[test]
fn there_are_as_many_rows_as_the_longer_column_has() {
    for m in 0..6usize {
        for n in 0..6usize {
            let logo: Vec<String> = (0..m).map(|i| "#".repeat(i)).collect();
            let info: Vec<InfoLine> = (0..n).map(|i| InfoLine::Separator(i)).collect();
            let rows = plain_rows(&logo, &info);
            assert_eq!(rows.len(), m.max(n));
        }
    }
}

#[test]
fn every_fact_starts_in_the_same_column() {
    let logo = strings(&["a", "abc", "", "ab", "abcde"]);
    let info = vec![
        fact("one", "1"),
        fact("two", "2"),
        fact("three", "3"),
        fact("four", "4"),
        fact("five", "5"),
        fact("six", "6"),
        fact("seven", "7"),
    ];
    let rows = plain_rows(&logo, &info);
    assert_eq!(rows.len(), 7);
    for (i, row) in rows.iter().enumerate() {
        let cell = if i < logo.len() { logo[i].as_str() } else { "" };
        let chars: Vec<char> = row.chars().collect();
        assert_eq!(chars.len(), 5 + 1 + info[i].len());
        let head: String = chars[..cell.len()].iter().collect();
        assert_eq!(head, cell);
        assert!(chars[cell.len()..6].iter().all(|c| *c == ' '));
        let tail: String = chars[6..].iter().collect();
        assert_eq!(tail, info[i].plain());
    }
}

#[test]
fn screen_of_a_host_without_graphics_devices() {
    let lines = collect_lines(&host()).unwrap();
    let rows = plain_rows(&arch_logo(), &lines);
    let expected = strings(&[
        "      /#\\       alice@wonderland",
        "     /###\\      ----------------",
        "    /p^###\\     os: Arch Linux x86_64",
        "   /##P^q##\\    kernel: 6.9.1-arch1-1",
        "  /##(   )##\\   uptime: 1h 30m",
        " /###P   q#,^\\  cpu: AMD Ryzen 7 5800X",
        "/P^         ^q\\ memory: 2048MiB / 16384MiB",
    ]);
    assert_eq!(rows, expected);
}

#[test]
fn screen_of_a_host_with_graphics_devices_runs_below_the_logo() {
    let mut facts = host();
    facts.gpus = vec!["Radeon RX 6800".to_string(), "Raphael".to_string()];
    let lines = collect_lines(&facts).unwrap();
    let rows = plain_rows(&arch_logo(), &lines);
    assert_eq!(rows.len(), 9);
    assert_eq!(rows[6], "/P^         ^q\\ gpu: Radeon RX 6800");
    assert_eq!(rows[7], "                gpu: Raphael");
    assert_eq!(rows[8], "                memory: 2048MiB / 16384MiB");
}

#[test]
fn screen_with_a_failed_memory_query_keeps_its_columns() {
    let mut facts = host();
    facts.memory = Err("permission denied".to_string());
    let lines = collect_lines(&facts).unwrap();
    let rows = plain_rows(&arch_logo(), &lines);
    assert_eq!(rows.len(), 7);
    assert_eq!(rows[6], "/P^         ^q\\ memory: permission denied");
    let good = plain_rows(&arch_logo(), &collect_lines(&host()).unwrap());
    for i in 0..6usize {
        assert_eq!(rows[i], good[i]);
    }
}

#[test]
fn filling_goes_by_the_visible_width() {
    let logo = strings(&["äö", "abcd"]);
    let info = vec![fact("k", "v"), fact("k", "v")];
    let rows = plain_rows(&logo, &info);
    assert_eq!(rows, strings(&["äö   k: v", "abcd k: v"]));
}
