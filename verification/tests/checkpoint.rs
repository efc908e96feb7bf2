use train_harness::train::checkpoint::{epoch_of_entry, get_last_epoch, parse_number};
use train_harness::train::layout::{
    checkpoint_path, config_path, epoch_name, history_path, model_path,
};

fn listing(names: &[&str]) -> Vec<String> {
    names.iter().map(|name| name.to_string()).collect()
}

#[test]
fn last_epoch_of_checkpoints_and_a_stray_file() {
    let entries = listing(&["epoch-1", "epoch-3", "epoch-7", "notes.txt"]);
    assert_eq!(get_last_epoch(&entries), 7);
}

#[test]
fn last_epoch_does_not_depend_on_order() {
    let entries = listing(&["epoch-7", "notes.txt", "epoch-1", "epoch-3"]);
    assert_eq!(get_last_epoch(&entries), 7);
    let entries = listing(&["epoch-3", "epoch-7", "epoch-7", "epoch-1"]);
    assert_eq!(get_last_epoch(&entries), 7);
}

#[test]
fn last_epoch_of_empty_listing_is_zero() {
    assert_eq!(get_last_epoch(&Vec::new()), 0);
}

#[test]
fn last_epoch_of_listing_without_checkpoints_is_zero() {
    let entries = listing(&["notes.txt", "epoch", "epoch-", "model", ""]);
    assert_eq!(get_last_epoch(&entries), 0);
}

#[test]
fn malformed_names_are_passed_over() {
    for name in [
        "",
        "epoch",
        "epoch-",
        "epoch-x",
        "epoch-1x",
        "epoch-x1",
        "epoch--1",
        "epoch- 1",
        "epoch-1 ",
        " epoch-1",
        "Epoch-1",
        "EPOCH-1",
        "epoch_1",
        "epoch1",
        "xepoch-1",
        "epoch-+",
        "epoch-++1",
        "epoch-+-1",
        "epoch-1.0",
        "epoch-1e2",
        "epoch-0x10",
        "epoch-\u{0663}",
        "epoch-\u{ff11}",
        "\u{00e9}poch-1",
        "epoch-99999999999999999999999999",
        "epoch-340282366920938463463374607431768211456",
    ] {
        assert_eq!(epoch_of_entry(name), None, "{name:?}");
    }
}

#[test]
fn well_formed_names_are_read() {
    assert_eq!(epoch_of_entry("epoch-0"), Some(0));
    assert_eq!(epoch_of_entry("epoch-1"), Some(1));
    assert_eq!(epoch_of_entry("epoch-42"), Some(42));
    assert_eq!(epoch_of_entry("epoch-007"), Some(7));
    assert_eq!(epoch_of_entry("epoch-+7"), Some(7));
    assert_eq!(epoch_of_entry("epoch-+007"), Some(7));
    assert_eq!(epoch_of_entry("epoch-0000000000000000000000000000000012"), Some(12));
    assert_eq!(epoch_of_entry("epoch-4294967295"), Some(4294967295));
}

#[test]
fn greatest_number_of_the_machine_is_read_and_the_next_is_not() {
    let max = format!("epoch-{}", usize::MAX);
    assert_eq!(epoch_of_entry(&max), Some(usize::MAX));
    let digits = usize::MAX.to_string();
    let mut next: Vec<u8> = digits.into_bytes();
    let mut i = next.len();
    loop {
        assert!(i > 0);
        i -= 1;
        if next[i] == b'9' {
            next[i] = b'0';
        } else {
            next[i] += 1;
            break;
        }
    }
    let next = format!("epoch-{}", String::from_utf8(next).unwrap());
    assert_eq!(epoch_of_entry(&next), None);
    assert_eq!(get_last_epoch(&vec![max, next, "epoch-5".to_string()]), usize::MAX);
}

#[test]
fn entries_are_read_as_the_standard_parser_reads_them() {
    let tails = [
        "", "0", "1", "9", "10", "99", "100", "+", "+0", "+5", "-5", "-0", "05", "5 ", " 5", "5a",
        "a5", "++5", "+-5", "5+", "18446744073709551615", "18446744073709551616",
        "18446744073709551614", "4294967296", "000", "+000", "1_000", "1,000", "\u{0665}",
    ];
    for tail in tails {
        let name = format!("epoch-{tail}");
        let expected = name.strip_prefix("epoch-").and_then(|s| s.parse::<usize>().ok());
        assert_eq!(epoch_of_entry(&name), expected, "{name:?}");
        assert_eq!(parse_number(tail, 0), tail.parse::<usize>().ok(), "{tail:?}");
    }
}

#[test]
fn parse_number_starts_where_it_is_told() {
    assert_eq!(parse_number("ab12", 2), Some(12));
    assert_eq!(parse_number("ab12", 1), None);
    assert_eq!(parse_number("ab12", 4), None);
    assert_eq!(parse_number("\u{00e9}\u{00e9}34", 2), Some(34));
}

#[test]
fn epoch_names_are_written_in_shortest_decimal() {
    assert_eq!(epoch_name(0), "epoch-0");
    assert_eq!(epoch_name(1), "epoch-1");
    assert_eq!(epoch_name(9), "epoch-9");
    assert_eq!(epoch_name(10), "epoch-10");
    assert_eq!(epoch_name(7), "epoch-7");
    assert_eq!(epoch_name(1234567890), "epoch-1234567890");
    assert_eq!(epoch_name(usize::MAX), format!("epoch-{}", usize::MAX));
}

#[test]
fn written_names_are_read_back() {
    for n in [0usize, 1, 2, 9, 10, 11, 99, 100, 101, 4095, 65535, 1_000_000, usize::MAX - 1, usize::MAX]
    {
        assert_eq!(epoch_of_entry(&epoch_name(n)), Some(n));
    }
}

#[test]
fn last_epoch_of_written_names_is_the_greatest() {
    let entries: Vec<String> = [3usize, 12, 5, 11].iter().map(|n| epoch_name(*n)).collect();
    assert_eq!(get_last_epoch(&entries), 12);
}

#[test]
fn artifacts_lie_under_the_artifact_directory() {
    assert_eq!(config_path("/tmp/run"), "/tmp/run/config.json");
    assert_eq!(model_path("/tmp/run"), "/tmp/run/model");
    assert_eq!(history_path("/tmp/run"), "/tmp/run/train");
    assert_eq!(checkpoint_path("/tmp/run", 3), "/tmp/run/train/epoch-3");
    assert_eq!(checkpoint_path("", 120), "/train/epoch-120");
    assert_eq!(config_path("r\u{00e9}sultats"), "r\u{00e9}sultats/config.json");
}
