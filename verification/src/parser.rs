//! Reading the listing of the firmware boot-entry tool.
//!
//! The listing is scanned twice, once for the lines that report a setting
//! (`Key: value`) and once for the lines that report an active boot entry
//! (letters, the entry's number, an asterisk, the name up to the first tab).
//! Nothing in the listing is an error: what neither scan finds is ignored.

use crate::catalog::{BootTarget, BootTargetView, BootTargets, BootTargetsView};
use crate::decimal::{parse_u16, parsed_u16};
use crate::scan::{find_all, group_str, group_text, matches_of, Groups};
use crate::text::same_text;
use vstd::prelude::*;

verus! {

/// The pattern of a setting line: the key in group 1, the value in group 2.
pub const OPTION_PATTERN: &'static str = "(?m)^([a-zA-Z]+):\\s+(.*)$";

/// The pattern of an entry line: the number in group 1, the name in group 2.
pub const TARGET_PATTERN: &'static str = "(?m)^[a-zA-Z]*([0-9]+)\\*\\s+(.*?)\\t.*$";

/// The id that a setting's value stands for: the number it reads as, or 1
/// where it does not read as an unsigned 16-bit number.
pub open spec fn mark_value(value: Seq<char>) -> u16 {
    match parsed_u16(value) {
        Some(id) => id,
        None => 1,
    }
}

/// The id that the setting lines give for `key`: that of the last line with
/// this key, or none where no line has it.
pub open spec fn mark_from(options: Seq<Groups>, key: Seq<char>) -> Option<u16>
    decreases options.len(),
{
    if options.len() == 0 {
        None
    } else if group_text(options.last(), 1) == key {
        Some(mark_value(group_text(options.last(), 2)))
    } else {
        mark_from(options.drop_last(), key)
    }
}

/// Whether the number of an entry line reads as an unsigned 16-bit number.
pub open spec fn has_id(entry: Groups) -> bool {
    parsed_u16(group_text(entry, 1)) is Some
}

/// The entry that an entry line with a readable number reports.
pub open spec fn target_of(entry: Groups) -> BootTargetView {
    BootTargetView { id: parsed_u16(group_text(entry, 1))->0, name: group_text(entry, 2) }
}

/// The entries that the entry lines report, in order: one for each line whose
/// number reads as an unsigned 16-bit number.
pub open spec fn targets_from(entries: Seq<Groups>) -> Seq<BootTargetView> {
    entries.filter(|entry: Groups| has_id(entry)).map_values(|entry: Groups| target_of(entry))
}

/// The catalog that the two scans of a listing amount to.
pub open spec fn catalog_of(options: Seq<Groups>, entries: Seq<Groups>) -> BootTargetsView {
    BootTargetsView {
        targets: targets_from(entries),
        current: mark_from(options, "BootCurrent"@),
        next: mark_from(options, "BootNext"@),
    }
}

/// The id that a setting's value stands for.
fn read_mark(value: &str) -> (id: u16)
    ensures
        id == mark_value(value@),
{
    match parse_u16(value) {
        Some(id) => id,
        None => 1,
    }
}

proof fn lemma_targets_from_push(entries: Seq<Groups>, entry: Groups)
    ensures
        targets_from(entries.push(entry)) == if has_id(entry) {
            targets_from(entries).push(target_of(entry))
        } else {
            targets_from(entries)
        },
{
    reveal(Seq::filter);
    assert(entries.push(entry).drop_last() =~= entries);
}

/// Builds the catalog from what the two scans of a listing found.
///
/// `options` holds the setting lines and `entries` the entry lines, each with
/// its capture groups.  The last `BootCurrent` and the last `BootNext` line
/// give the two marks, with 1 in place of a value that does not read as a
/// number.  Every entry line whose number reads as an unsigned 16-bit number
/// gives an entry; the others are left out.
pub fn catalog_from_captures(
    options: &Vec<Vec<Option<String>>>,
    entries: &Vec<Vec<Option<String>>>,
) -> (catalog: BootTargets)
    ensures
        catalog@ == catalog_of(options.deep_view(), entries.deep_view()),
{
    let mut current: Option<u16> = None;
    let mut next: Option<u16> = None;
    let mut i: usize = 0;
    while i < options.len()
        invariant
            i <= options@.len(),
            current == mark_from(options.deep_view().take(i as int), "BootCurrent"@),
            next == mark_from(options.deep_view().take(i as int), "BootNext"@),
        decreases options@.len() - i,
    {
        let key = group_str(&options[i], 1);
        let value = group_str(&options[i], 2);
        proof {
            let seen = options.deep_view().take(i as int + 1);
            assert(seen.drop_last() =~= options.deep_view().take(i as int));
        }
        if same_text(key, "BootCurrent") {
            current = Some(read_mark(value));
        }
        if same_text(key, "BootNext") {
            next = Some(read_mark(value));
        }
        i = i + 1;
    }
    assert(options.deep_view().take(options@.len() as int) =~= options.deep_view());

    let mut targets: Vec<BootTarget> = Vec::new();
    let mut j: usize = 0;
    assert(targets_from(Seq::<Groups>::empty()) =~= Seq::<BootTargetView>::empty()) by {
        reveal(Seq::filter);
    }
    while j < entries.len()
        invariant
            j <= entries@.len(),
            Seq::new(targets@.len(), |k: int| targets@[k]@) == targets_from(
                entries.deep_view().take(j as int),
            ),
        decreases entries@.len() - j,
    {
        proof {
            let seen = entries.deep_view().take(j as int);
            assert(entries.deep_view().take(j as int + 1) =~= seen.push(
                entries@[j as int].deep_view(),
            ));
            lemma_targets_from_push(seen, entries@[j as int].deep_view());
        }
        match parse_u16(group_str(&entries[j], 1)) {
            Some(id) => {
                let name = String::from_str(group_str(&entries[j], 2));
                targets.push(BootTarget { id, name });
            },
            None => {},
        }
        j = j + 1;
    }
    assert(entries.deep_view().take(entries@.len() as int) =~= entries.deep_view());
    BootTargets { targets, current, next }
}

/// Reads the listing `raw` into a catalog.
///
/// The catalog is the one that [`catalog_from_captures`] builds from the
/// matches of [`OPTION_PATTERN`] and of [`TARGET_PATTERN`] in `raw`.  There is
/// no error: a listing in which nothing matches gives an empty catalog
/// without marks.
pub fn parse_boot_targets(raw: String) -> (catalog: BootTargets)
    ensures
        catalog@ == catalog_of(
            matches_of(OPTION_PATTERN@, raw@),
            matches_of(TARGET_PATTERN@, raw@),
        ),
{
    let options = find_all(OPTION_PATTERN, raw.as_str());
    let entries = find_all(TARGET_PATTERN, raw.as_str());
    catalog_from_captures(&options, &entries)
}

/// Whether line `i` is the last of the setting lines with `key`.
pub open spec fn is_last_with_key(options: Seq<Groups>, key: Seq<char>, i: int) -> bool {
    &&& 0 <= i < options.len()
    &&& group_text(options[i], 1) == key
    &&& forall|j: int| i < j < options.len() ==> group_text(#[trigger] options[j], 1) != key
}

/// A mark is set exactly where some setting line has its key, and then from
/// the value of the last such line; a value that does not read as a number
/// stands for 1.
pub proof fn lemma_mark_from_last_line(options: Seq<Groups>, key: Seq<char>)
    ensures
        match mark_from(options, key) {
            Some(id) => exists|i: int| #[trigger]
                is_last_with_key(options, key, i) && id == mark_value(
                    group_text(options[i], 2),
                ),
            None => forall|i: int|
                0 <= i < options.len() ==> group_text(#[trigger] options[i], 1) != key,
        },
    decreases options.len(),
{
    if options.len() > 0 {
        let front = options.drop_last();
        if group_text(options.last(), 1) == key {
            assert(is_last_with_key(options, key, options.len() - 1));
        } else {
            lemma_mark_from_last_line(front, key);
            if mark_from(front, key) is Some {
                let i = choose|i: int| #[trigger]
                    is_last_with_key(front, key, i) && mark_from(front, key)->0 == mark_value(
                        group_text(front[i], 2),
                    );
                assert(is_last_with_key(options, key, i)) by {
                    assert forall|j: int| i < j < options.len() implies group_text(
                        #[trigger] options[j],
                        1,
                    ) != key by {
                        if j < front.len() {
                            assert(options[j] == front[j]);
                        }
                    }
                }
            } else {
                assert forall|i: int| 0 <= i < options.len() implies group_text(
                    #[trigger] options[i],
                    1,
                ) != key by {
                    if i < front.len() {
                        assert(options[i] == front[i]);
                    }
                }
            }
        }
    }
}

/// The catalog has exactly one entry for each entry line whose number reads
/// as an unsigned 16-bit number.
pub proof fn lemma_one_target_per_readable_line(options: Seq<Groups>, entries: Seq<Groups>)
    ensures
        catalog_of(options, entries).targets.len() == entries.filter(
            |entry: Groups| has_id(entry),
        ).len(),
        catalog_of(options, entries).targets.len() <= entries.len(),
{
    entries.lemma_filter_len(|entry: Groups| has_id(entry));
}

} // verus!
