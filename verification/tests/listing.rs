use tauridock::listing::{parse_line, parse_listing, ContainerRecord};

fn record(fields: [&str; 6]) -> ContainerRecord {
    ContainerRecord {
        id: fields[0].to_string(),
        name: fields[1].to_string(),
        image: fields[2].to_string(),
        status: fields[3].to_string(),
        ports: fields[4].to_string(),
        created: fields[5].to_string(),
    }
}

fn rejoin(r: &ContainerRecord) -> String {
    [
        r.id.as_str(),
        r.name.as_str(),
        r.image.as_str(),
        r.status.as_str(),
        r.ports.as_str(),
        r.created.as_str(),
    ]
    .join("|")
}

#[test]
fn three_valid_lines_and_one_malformed_give_three_records() {
    let text = "a1|web|nginx:latest|Up 2 hours|0.0.0.0:8080->80/tcp|2024-01-01 10:00:00 +0000 UTC\n\
                b2|db|postgres:16|Exited (0) 3 days ago||2024-01-02 11:00:00 +0000 UTC\n\
                broken|line|with|four\n\
                c3|cache|redis|Up 5 minutes|6379/tcp|2024-01-03 12:00:00 +0000 UTC\n";
    let records = parse_listing(text);
    assert_eq!(records.len(), 3);
    assert_eq!(
        records[0],
        record([
            "a1",
            "web",
            "nginx:latest",
            "Up 2 hours",
            "0.0.0.0:8080->80/tcp",
            "2024-01-01 10:00:00 +0000 UTC"
        ])
    );
    assert_eq!(
        records[1],
        record(["b2", "db", "postgres:16", "Exited (0) 3 days ago", "", "2024-01-02 11:00:00 +0000 UTC"])
    );
    assert_eq!(
        records[2],
        record(["c3", "cache", "redis", "Up 5 minutes", "6379/tcp", "2024-01-03 12:00:00 +0000 UTC"])
    );
}

#[test]
fn six_field_lines_round_trip() {
    let lines = [
        "a|b|c|d|e|f",
        "|||||",
        " a |b| c|d |e| f ",
        "id|name|repo@sha256:abc|Up|0.0.0.0:80->80/tcp, :::80->80/tcp|now\r",
        "ü|ö|ä|ß|日本|語",
    ];
    for line in lines {
        let records = parse_listing(line);
        assert_eq!(records.len(), 1, "{:?}", line);
        assert_eq!(rejoin(&records[0]), line);
        let one = parse_line(line).unwrap();
        assert_eq!(rejoin(&one), line);
    }
}

#[test]
fn short_lines_are_dropped() {
    assert_eq!(parse_line("a|b|c|d|e"), None);
    assert_eq!(parse_line("a"), None);
    assert_eq!(parse_line(""), None);
    assert_eq!(parse_line("  a|b|c|d|e  "), None);
    assert_eq!(parse_listing("a|b|c|d|e\nx|y\n"), Vec::<ContainerRecord>::new());
}

#[test]
fn blank_lines_are_skipped() {
    assert_eq!(parse_line("   "), None);
    assert_eq!(parse_line("\t"), None);
    let text = "\n  \na|b|c|d|e|f\n\n\t\ng|h|i|j|k|l\n\n";
    let records = parse_listing(text);
    assert_eq!(records, vec![record(["a", "b", "c", "d", "e", "f"]), record(["g", "h", "i", "j", "k", "l"])]);
}

#[test]
fn empty_listing_gives_no_record() {
    assert_eq!(parse_listing(""), Vec::<ContainerRecord>::new());
    assert_eq!(parse_listing("\n"), Vec::<ContainerRecord>::new());
}

#[test]
fn fields_after_the_sixth_are_left_out() {
    let r = parse_line("a|b|c|d|e|f|g|h").unwrap();
    assert_eq!(r, record(["a", "b", "c", "d", "e", "f"]));
}

#[test]
fn fields_are_not_trimmed() {
    let r = parse_line("  a|b |c| d|e|f  ").unwrap();
    assert_eq!(r, record(["  a", "b ", "c", " d", "e", "f  "]));
}

#[test]
fn carriage_returns_before_line_feeds_are_no_part_of_a_line() {
    let records = parse_listing("a|b|c|d|e|f\r\ng|h|i|j|k|l\r\n");
    assert_eq!(records, vec![record(["a", "b", "c", "d", "e", "f"]), record(["g", "h", "i", "j", "k", "l"])]);
}

#[test]
fn records_keep_the_order_of_the_lines() {
    let mut text = String::new();
    for i in 0..50 {
        text.push_str(&format!("id{}|n|i|s|p|c\n", i));
        if i % 3 == 0 {
            text.push_str("not a record\n");
        }
    }
    let records = parse_listing(&text);
    assert_eq!(records.len(), 50);
    for i in 0..50 {
        assert_eq!(records[i].id, format!("id{}", i));
    }
}

#[test]
fn separator_inside_a_field_shifts_the_columns() {
    let r = parse_line("id|na|me|nginx|Up 2 hours|80/tcp|today").unwrap();
    assert_eq!(r, record(["id", "na", "me", "nginx", "Up 2 hours", "80/tcp"]));
}
