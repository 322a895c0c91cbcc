use reboot_to::catalog::{BootTarget, BootTargets};
use reboot_to::parser::{catalog_from_captures, parse_boot_targets, OPTION_PATTERN, TARGET_PATTERN};
use reboot_to::scan::{find_all, group_str};

const LISTING: &str = "BootCurrent: 0000\n\
Timeout: 1 seconds\n\
BootOrder: 0000,0001,0002\n\
Boot0000* Linux\tHD(1,GPT,1b2c,0x800,0x100000)/File(\\EFI\\Linux\\grubx64.efi)\n\
Boot0001* Windows Boot Manager\tHD(2,GPT,3d4e,0x800,0x32000)/File(\\EFI\\Microsoft\\Boot\\bootmgfw.efi)\n\
Boot0002* Linux\tHD(3,GPT,5f6a,0x800,0x100000)/File(\\EFI\\other\\grubx64.efi)\n";

fn target(id: u16, name: &str) -> BootTarget {
    BootTarget { id, name: name.to_string() }
}

fn groups(texts: &[Option<&str>]) -> Vec<Option<String>> {
    texts.iter().map(|text| text.map(|t| t.to_string())).collect()
}

#[test]
fn parses_a_listing() {
    let catalog = parse_boot_targets(LISTING.to_string());
    assert_eq!(
        catalog,
        BootTargets {
            targets: vec![
                target(0, "Linux"),
                target(1, "Windows Boot Manager"),
                target(2, "Linux"),
            ],
            current: Some(0),
            next: None,
        }
    );
}

#[test]
fn empty_text_gives_an_empty_catalog() {
    let catalog = parse_boot_targets(String::new());
    assert_eq!(catalog, BootTargets { targets: vec![], current: None, next: None });
}

#[test]
fn text_without_matching_lines_gives_an_empty_catalog() {
    let catalog = parse_boot_targets("no entries here\n\u{1F680} \t *** 12 ::\n".to_string());
    assert_eq!(catalog, BootTargets { targets: vec![], current: None, next: None });
}

#[test]
fn one_entry_per_line_with_a_readable_number() {
    let raw = "Boot0003* first\tA\n\
Boot65535* last id\tB\n\
Boot65536* too large\tC\n\
Boot99999999999999999999* far too large\tD\n\
Boot0004 inactive\tE\n\
Boot0005* no tab after the name\n\
0006* no letters\tF\n";
    let catalog = parse_boot_targets(raw.to_string());
    assert_eq!(
        catalog.targets,
        vec![target(3, "first"), target(65535, "last id"), target(6, "no letters")]
    );
    assert_eq!(catalog.targets.len(), 3);
}

#[test]
fn entries_keep_the_order_of_the_text_and_may_repeat() {
    let raw = "Boot0002* b\tx\nBoot0001* a\tx\nBoot0002* c\tx\n";
    let catalog = parse_boot_targets(raw.to_string());
    assert_eq!(catalog.targets, vec![target(2, "b"), target(1, "a"), target(2, "c")]);
}

#[test]
fn name_ends_at_the_first_tab() {
    let catalog = parse_boot_targets("Boot0001* a name\tpart\tmore\n".to_string());
    assert_eq!(catalog.targets, vec![target(1, "a name")]);
}

#[test]
fn boot_current_is_read() {
    let catalog = parse_boot_targets("BootCurrent: 3\n".to_string());
    assert_eq!(catalog.current, Some(3));
    assert_eq!(catalog.next, None);
}

#[test]
fn boot_next_is_read_with_leading_zeros() {
    let catalog = parse_boot_targets("BootNext: 0007\n".to_string());
    assert_eq!(catalog.next, Some(7));
    assert_eq!(catalog.current, None);
}

#[test]
fn both_marks_are_read() {
    let catalog = parse_boot_targets("BootCurrent: 3\nBootNext: 0007\n".to_string());
    assert_eq!(catalog.current, Some(3));
    assert_eq!(catalog.next, Some(7));
}

#[test]
fn missing_keys_leave_the_marks_empty() {
    let catalog = parse_boot_targets("Timeout: 1 seconds\nBoot0001* a\tx\n".to_string());
    assert_eq!(catalog.current, None);
    assert_eq!(catalog.next, None);
}

#[test]
fn unreadable_boot_current_defaults_to_one() {
    let catalog = parse_boot_targets("BootCurrent: abc\n".to_string());
    assert_eq!(catalog.current, Some(1));
}

#[test]
fn unreadable_boot_next_defaults_to_one() {
    let catalog = parse_boot_targets("BootNext: 70000\n".to_string());
    assert_eq!(catalog.next, Some(1));
    let catalog = parse_boot_targets("BootNext: 7 \n".to_string());
    assert_eq!(catalog.next, Some(1));
}

#[test]
fn the_last_line_of_a_key_wins() {
    let catalog = parse_boot_targets("BootCurrent: 3\nBootCurrent: 4\n".to_string());
    assert_eq!(catalog.current, Some(4));
}

#[test]
fn a_mark_may_name_an_id_that_no_entry_has() {
    let catalog = parse_boot_targets("BootCurrent: 0009\nBoot0001* a\tx\n".to_string());
    assert_eq!(catalog.current, Some(9));
    assert_eq!(catalog.get_names(), vec!["     a".to_string()]);
}

#[test]
fn end_to_end_labels() {
    let raw = "BootCurrent: 0\n\
BootNext: 2\n\
Boot0000* Linux\tHD(1)\n\
Boot0001* Windows Boot Manager\tHD(2)\n\
Boot0002* Linux\tHD(3)\n";
    let catalog = parse_boot_targets(raw.to_string());
    assert_eq!(
        catalog.get_names(),
        vec![
            "cur: Linux".to_string(),
            "     Windows Boot Manager".to_string(),
            "nxt: Linux".to_string(),
        ]
    );
}

#[test]
fn find_all_yields_each_match_with_its_groups() {
    let found = find_all("(a+)(b)?", "xaab--a");
    assert_eq!(
        found,
        vec![
            groups(&[Some("aab"), Some("aa"), Some("b")]),
            groups(&[Some("a"), Some("a"), None]),
        ]
    );
}

#[test]
fn find_all_with_a_pattern_that_does_not_compile_finds_nothing() {
    assert_eq!(find_all("(unclosed", "(unclosed"), Vec::<Vec<Option<String>>>::new());
}

#[test]
fn find_all_without_a_match_finds_nothing() {
    assert_eq!(find_all("z", "abc"), Vec::<Vec<Option<String>>>::new());
}

#[test]
fn option_pattern_captures_key_and_value() {
    let found = find_all(OPTION_PATTERN, "BootCurrent: 0003\nTimeout:   2 seconds\n");
    assert_eq!(
        found,
        vec![
            groups(&[Some("BootCurrent: 0003"), Some("BootCurrent"), Some("0003")]),
            groups(&[Some("Timeout:   2 seconds"), Some("Timeout"), Some("2 seconds")]),
        ]
    );
}

#[test]
fn target_pattern_captures_number_and_name() {
    let found = find_all(TARGET_PATTERN, "Boot0001* Linux\tHD(1)\nBoot0002 off\tHD(2)\n");
    assert_eq!(found, vec![groups(&[Some("Boot0001* Linux\tHD(1)"), Some("0001"), Some("Linux")])]);
}

#[test]
fn group_str_gives_the_text_or_nothing() {
    let found = groups(&[Some("whole"), None, Some("two")]);
    assert_eq!(group_str(&found, 0), "whole");
    assert_eq!(group_str(&found, 1), "");
    assert_eq!(group_str(&found, 2), "two");
    assert_eq!(group_str(&found, 3), "");
}

#[test]
fn catalog_from_captures_builds_marks_and_entries() {
    let options = vec![
        groups(&[Some("BootCurrent: 2"), Some("BootCurrent"), Some("2")]),
        groups(&[Some("Other: 5"), Some("Other"), Some("5")]),
        groups(&[Some("BootNext: x"), Some("BootNext"), Some("x")]),
    ];
    let entries = vec![
        groups(&[Some("Boot0002* b\t"), Some("0002"), Some("b")]),
        groups(&[Some("Boot70000* c\t"), Some("70000"), Some("c")]),
        groups(&[Some("Boot+3* d\t"), Some("+3"), Some("d")]),
    ];
    let catalog = catalog_from_captures(&options, &entries);
    assert_eq!(
        catalog,
        BootTargets {
            targets: vec![target(2, "b"), target(3, "d")],
            current: Some(2),
            next: Some(1),
        }
    );
}

#[test]
fn catalog_from_captures_ignores_matches_without_groups() {
    let options = vec![groups(&[Some("BootCurrent")]), groups(&[Some("x"), None, Some("4")])];
    let entries = vec![groups(&[Some("x")]), groups(&[Some("x"), None, Some("name")])];
    let catalog = catalog_from_captures(&options, &entries);
    assert_eq!(catalog, BootTargets { targets: vec![], current: None, next: None });
}

#[test]
fn catalog_from_captures_takes_a_missing_name_as_empty() {
    let entries = vec![groups(&[Some("1*"), Some("1")]), groups(&[Some("2*"), Some("2"), None])];
    let catalog = catalog_from_captures(&vec![], &entries);
    assert_eq!(catalog.targets, vec![target(1, ""), target(2, "")]);
}
