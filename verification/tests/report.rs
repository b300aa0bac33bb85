use thread_memory::report::format_row;
use thread_memory::report::header_row;
use thread_memory::report::report_usage;
use thread_memory::report::rule_row;
use thread_memory::report::LABEL_WIDTH;
use thread_memory::report::QUANTITY_WIDTH;
use thread_memory::snapshot::MemorySnapshot;

#[test]
fn example_row_shows_gib_and_mib_right_aligned() {
    let usage = MemorySnapshot { virtual_bytes: 1_073_741_824, physical_bytes: 1_048_576 };
    let row = report_usage("example", usage);
    assert_eq!(row, "                         example :    1.0 GiB    1.0 MiB");
    assert_eq!(row, format!("  {:>30} : {:>10} {:>10}", "example", "1.0 GiB", "1.0 MiB"));
}

#[test]
fn row_agrees_with_bytesize_display() {
    let usage = MemorySnapshot { virtual_bytes: 8_429_568, physical_bytes: 12_288 };
    let row = report_usage("small_thread", usage);
    let expected = format!(
        "  {:>30} : {:>10} {:>10}",
        "small_thread",
        bytesize::ByteSize::b(8_429_568),
        bytesize::ByteSize::b(12_288)
    );
    assert_eq!(row, expected);
}

#[test]
fn row_of_zero_bytes() {
    let usage = MemorySnapshot { virtual_bytes: 0, physical_bytes: 0 };
    let row = report_usage("small_thread (after)", usage);
    assert_eq!(row, "            small_thread (after) :        0 B        0 B");
}

#[test]
fn row_below_one_kib_shows_bytes() {
    let usage = MemorySnapshot { virtual_bytes: 1023, physical_bytes: 1024 };
    let row = report_usage("x", usage);
    assert_eq!(row, format!("  {:>30} : {:>10} {:>10}", "x", "1023 B", "1.0 KiB"));
}

#[test]
fn row_has_fifty_six_columns() {
    let usage = MemorySnapshot { virtual_bytes: 1_073_741_824, physical_bytes: 1_048_576 };
    let row = report_usage("large_thread (1M)", usage);
    assert_eq!(row.chars().count(), 2 + LABEL_WIDTH + 3 + QUANTITY_WIDTH + 1 + QUANTITY_WIDTH);
    assert_eq!(row.chars().count(), 56);
    assert!(row.ends_with("1.0 MiB"));
}

#[test]
fn format_row_pads_with_spaces_on_the_left() {
    let row = format_row("ab", "cd", "ef");
    assert_eq!(row, format!("  {:>30} : {:>10} {:>10}", "ab", "cd", "ef"));
    assert_eq!(&row[..30], " ".repeat(30));
    assert_eq!(&row[30..32], "ab");
}

#[test]
fn format_row_keeps_a_label_that_fills_its_column() {
    let label = "a".repeat(30);
    let row = format_row(&label, "1234567890", "0987654321");
    assert_eq!(row, format!("  {} : 1234567890 0987654321", label));
}

#[test]
fn format_row_does_not_cut_what_is_too_wide() {
    let label = "b".repeat(31);
    let row = format_row(&label, "12345678901", "x");
    assert_eq!(row, format!("  {:>30} : {:>10} {:>10}", label, "12345678901", "x"));
    assert_eq!(row, format!("  {} : 12345678901          x", label));
}

#[test]
fn format_row_counts_characters_not_bytes() {
    let row = format_row("größe", "µ", "");
    assert_eq!(row, format!("  {:>30} : {:>10} {:>10}", "größe", "µ", ""));
    assert_eq!(row.chars().count(), 56);
}

#[test]
fn header_row_names_the_columns() {
    let row = header_row();
    assert_eq!(row, format!("  {:>30}   {:>10} {:>10}", "", "VIRTUAL", "PHYSICAL"));
    assert_eq!(row, "                                      VIRTUAL   PHYSICAL");
}

#[test]
fn rule_row_is_dashes_under_each_column() {
    let row = rule_row();
    assert_eq!(row, format!("  {:->30}   {:->10} {:->10}", "", "", ""));
    assert_eq!(row, "  ------------------------------   ---------- ----------");
}
