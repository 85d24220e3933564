use seek::events::Elapsed;
use seek::events::SearchEvent;
use seek::events::SearchResult;
use seek::events::StatusMessage;
use seek::events::WalkError;
use seek::events::WalkItem;
use seek::matchers::create_matcher;
use seek::matchers::Entry;
use seek::matchers::EntryKind;
use seek::model::Next;
use seek::search::Input;
use seek::search::SearchRun;
use seek::search::Searcher;

const SECOND: u128 = 1_000_000_000;

fn at(nanos: u128) -> Elapsed {
    Elapsed { nanos }
}

fn file(relative: &str) -> WalkItem {
    node(relative, EntryKind::File)
}

fn dir(relative: &str) -> WalkItem {
    node(relative, EntryKind::Dir)
}

fn node(relative: &str, kind: EntryKind) -> WalkItem {
    let path = if relative.is_empty() {
        "root".to_string()
    } else {
        format!("root/{}", relative)
    };
    let file_name = path.rsplit('/').next().unwrap().to_string();
    WalkItem::Entry(Entry { path, file_name, relative_path: relative.to_string(), kind })
}

fn denied(path: &str) -> WalkItem {
    WalkItem::Error(WalkError { path: Some(path.to_string()), permission_denied: true })
}

fn small_tree() -> Vec<WalkItem> {
    vec![dir(""), file("a.txt"), file("b.log"), dir("sub"), file("sub/c.txt")]
}

fn searcher(pattern: &str, regex: bool, max_files: usize, timeout: u64) -> Searcher {
    Searcher::new(
        create_matcher(pattern, regex).unwrap(),
        "root".to_string(),
        None,
        max_files,
        timeout,
        false,
        false,
        false,
    )
}

/// Drives a whole search as a caller does: every item of the walk while the
/// worker collects, then every retained entry, then the end. The clock reads
/// `walk_clock(i)` at the `i`-th item and `filter_clock` in the second phase.
fn drive(
    searcher: Searcher,
    full_path: bool,
    walk: Vec<WalkItem>,
    walk_clock: &dyn Fn(usize) -> u128,
    filter_clock: u128,
) -> (Vec<SearchEvent>, SearchResult, SearchRun) {
    let (mut run, mut log, _) = searcher.search(full_path, at(0));
    for (i, item) in walk.into_iter().enumerate() {
        if !run.is_collecting() {
            break;
        }
        log.extend(run.collect(at(walk_clock(i)), item));
    }
    log.extend(run.end_collecting());
    while run.is_filtering() {
        log.extend(run.filter(at(filter_clock)));
    }
    let (last, result) = run.finish(at(filter_clock));
    log.extend(last);
    (log, result, run)
}

fn matches_of(log: &[SearchEvent]) -> Vec<String> {
    log.iter()
        .filter_map(|event| match event {
            SearchEvent::Match(path) => Some(path.clone()),
            _ => None,
        })
        .collect()
}

fn statuses_of(log: &[SearchEvent]) -> Vec<String> {
    log.iter()
        .filter_map(|event| match event {
            SearchEvent::Status(message) => Some(format!("{:?}", message)),
            _ => None,
        })
        .collect()
}

#[test]
fn scenario_glob_on_small_tree() {
    let (log, result, _) = drive(searcher("*.txt", false, 500000, 600), false, small_tree(), &|_| 0, 0);
    assert_eq!(matches_of(&log), vec!["root/a.txt", "root/sub/c.txt"]);
    assert_eq!(result.matches, 2);
    assert_eq!(result.files_scanned, 5);
    assert!(result.files_scanned >= 3);
    assert_eq!(result.permission_errors, 0);
    assert!(!result.limit_reached);
    assert!(!result.timed_out);
}

#[test]
fn scenario_regex_on_full_path() {
    let (log, result, _) =
        drive(searcher(r".*\.txt$", true, 500000, 600), true, small_tree(), &|_| 0, 0);
    assert_eq!(matches_of(&log), vec!["root/a.txt", "root/sub/c.txt"]);
    assert_eq!(result.matches, 2);
    assert_eq!(result.files_scanned, 5);
    assert_eq!(result.permission_errors, 0);
    assert!(!result.limit_reached);
    assert!(!result.timed_out);
}

#[test]
fn scenario_cap_of_two_on_five_entries() {
    let (log, result, _) = drive(searcher("*", false, 2, 600), false, small_tree(), &|_| 0, 0);
    assert!(result.limit_reached);
    assert!(!result.timed_out);
    assert_eq!(result.files_scanned, 2);
    assert_eq!(result.matches, 0);
    assert!(matches_of(&log).is_empty());
    assert!(statuses_of(&log).contains(&"LimitReached(2)".to_string()));
}

#[test]
fn scenario_unreadable_subdirectory() {
    let searcher = Searcher::new(
        create_matcher("*.txt", false).unwrap(),
        "root".to_string(),
        None,
        500000,
        600,
        false,
        false,
        true,
    );
    let walk = vec![dir(""), file("a.txt"), denied("root/locked"), file("z.txt")];
    let (log, result, _) = drive(searcher, false, walk, &|_| 0, 0);
    assert_eq!(result.permission_errors, 1);
    assert!(!result.limit_reached);
    assert!(!result.timed_out);
    assert_eq!(result.files_scanned, 4);
    assert_eq!(matches_of(&log), vec!["root/a.txt", "root/z.txt"]);
    assert!(statuses_of(&log)
        .contains(&"CurrentPath(\"Permission denied: root/locked\")".to_string()));
    assert_eq!(statuses_of(&log).last().unwrap(), "Done");
}

#[test]
fn whole_log_of_a_small_search() {
    let (log, _, _) = drive(searcher("*.txt", false, 0, 0), false, small_tree(), &|_| 0, 0);
    let shown: Vec<String> = log.iter().map(|event| format!("{:?}", event)).collect();
    assert_eq!(
        shown,
        vec![
            "Status(CurrentPath(\"Starting search...\"))",
            "Status(FileCount(5, 0))",
            "Status(PermissionErrors(0))",
            "Status(CurrentPath(\"Searching 5 files...\"))",
            "Match(\"root/a.txt\")",
            "Match(\"root/sub/c.txt\")",
            "Status(Done)",
        ]
    );
}

#[test]
fn search_begins_with_note_and_empty_tally() {
    let (run, log, placeholder) = searcher("*", false, 10, 5).search(true, at(42));
    assert_eq!(log.len(), 1);
    assert!(matches!(&log[0], SearchEvent::Status(StatusMessage::CurrentPath(text)) if text == "Starting search..."));
    assert_eq!(
        placeholder,
        SearchResult {
            matches: 0,
            files_scanned: 0,
            permission_errors: 0,
            elapsed: at(42),
            limit_reached: false,
            timed_out: false,
        }
    );
    assert!(run.is_collecting());
    assert!(!run.is_filtering());
    assert!(!run.is_done());
    assert_eq!(run.files_scanned(), 0);
}

#[test]
fn searcher_keeps_its_configuration() {
    let s = Searcher::new(
        create_matcher("*", false).unwrap(),
        "some/where".to_string(),
        Some(3),
        7,
        0,
        true,
        false,
        false,
    );
    assert_eq!(s.base_path(), "some/where");
    assert_eq!(s.max_depth(), Some(3));
}

#[test]
fn cap_trips_exactly_when_walk_reaches_it() {
    for entries in 0..8usize {
        let walk: Vec<WalkItem> = (0..entries).map(|i| file(&format!("f{}", i))).collect();
        let (_, result, _) = drive(searcher("*", false, 4, 0), false, walk, &|_| 0, 0);
        assert!(result.files_scanned <= 4);
        assert_eq!(result.limit_reached, entries >= 4);
        assert_eq!(result.files_scanned, entries.min(4));
        assert_eq!(result.matches, if entries >= 4 { 0 } else { entries });
    }
}

#[test]
fn cap_of_one_counts_the_first_item_and_stops() {
    let (log, result, _) = drive(searcher("*", false, 1, 0), false, small_tree(), &|_| 0, 0);
    assert!(result.limit_reached);
    assert_eq!(result.files_scanned, 1);
    assert_eq!(
        statuses_of(&log),
        vec![
            "CurrentPath(\"Starting search...\")",
            "LimitReached(1)",
            "FileCount(1, 1)",
            "PermissionErrors(0)",
            "CurrentPath(\"Searching 0 files...\")",
            "Done",
        ]
    );
}

#[test]
fn no_cap_scans_everything() {
    let walk: Vec<WalkItem> = (0..2500).map(|i| file(&format!("f{}", i))).collect();
    let (log, result, _) = drive(searcher("f1*", false, 0, 0), false, walk, &|_| 0, 0);
    assert_eq!(result.files_scanned, 2500);
    assert!(!result.limit_reached);
    assert_eq!(result.matches, 1 + 10 + 100 + 1000);
    let statuses = statuses_of(&log);
    assert!(statuses.contains(&"FileCount(1000, 0)".to_string()));
    assert!(statuses.contains(&"FileCount(2000, 0)".to_string()));
    assert!(!statuses.contains(&"FileCount(999, 0)".to_string()));
    assert!(statuses.contains(&"FileCount(2500, 0)".to_string()));
}

#[test]
fn count_reports_are_dense_before_the_cap() {
    let walk: Vec<WalkItem> = (0..1500).map(|i| file(&format!("f{}", i))).collect();
    let (log, result, _) = drive(searcher("nothing", false, 1200, 0), false, walk, &|_| 0, 0);
    assert!(result.limit_reached);
    assert_eq!(result.files_scanned, 1200);
    let statuses = statuses_of(&log);
    assert!(!statuses.contains(&"FileCount(200, 1200)".to_string()));
    for scanned in 201..1200 {
        assert!(statuses.contains(&format!("FileCount({}, 1200)", scanned)));
    }
    assert!(statuses.contains(&"LimitReached(1200)".to_string()));
    assert_eq!(statuses.iter().filter(|s| *s == "FileCount(1200, 1200)").count(), 1);
}

#[test]
fn directory_is_shown_at_every_hundredth_entry() {
    let mut walk: Vec<WalkItem> = vec![dir("")];
    for i in 1..98 {
        walk.push(file(&format!("f{}", i)));
    }
    walk.push(dir("deep"));
    walk.push(dir("hundredth"));
    for i in 0..99 {
        walk.push(file(&format!("g{}", i)));
    }
    walk.push(file("two-hundredth"));
    let (log, result, _) = drive(searcher("*", false, 0, 0), false, walk, &|_| 0, 0);
    assert_eq!(result.files_scanned, 200);
    let statuses = statuses_of(&log);
    assert!(statuses.contains(&"CurrentPath(\"hundredth\")".to_string()));
    assert!(!statuses.contains(&"CurrentPath(\"deep\")".to_string()));
    assert!(!statuses.contains(&"CurrentPath(\"two-hundredth\")".to_string()));
}

#[test]
fn root_directory_is_never_shown_as_current_path() {
    let mut walk: Vec<WalkItem> = (1..100).map(|i| file(&format!("f{}", i))).collect();
    walk.push(dir(""));
    let (log, _, _) = drive(searcher("*", false, 0, 0), false, walk, &|_| 0, 0);
    assert!(!statuses_of(&log).contains(&"CurrentPath(\"\")".to_string()));
}

#[test]
fn type_filters_decide_what_is_retained() {
    let files = Searcher::new(
        create_matcher("*", false).unwrap(),
        "root".to_string(),
        None,
        0,
        0,
        true,
        false,
        false,
    );
    let (log, result, _) = drive(files, false, small_tree(), &|_| 0, 0);
    assert_eq!(matches_of(&log), vec!["root/a.txt", "root/b.log", "root/sub/c.txt"]);
    assert_eq!(result.files_scanned, 5);
    assert!(statuses_of(&log).contains(&"CurrentPath(\"Searching 3 files...\")".to_string()));

    let dirs = Searcher::new(
        create_matcher("*", false).unwrap(),
        "root".to_string(),
        None,
        0,
        0,
        false,
        true,
        false,
    );
    let (log, result, _) = drive(dirs, false, small_tree(), &|_| 0, 0);
    assert_eq!(matches_of(&log), vec!["root", "root/sub"]);
    assert_eq!(result.matches, 2);

    let both = Searcher::new(
        create_matcher("*", false).unwrap(),
        "root".to_string(),
        None,
        0,
        0,
        true,
        true,
        false,
    );
    let (log, result, _) = drive(both, false, small_tree(), &|_| 0, 0);
    assert!(matches_of(&log).is_empty());
    assert_eq!(result.files_scanned, 5);
    assert_eq!(result.matches, 0);
}

#[test]
fn matches_may_exceed_nothing_but_retained_entries() {
    let (_, result, _) = drive(searcher("*", false, 0, 0), false, small_tree(), &|_| 0, 0);
    assert_eq!(result.matches, 5);
    assert_eq!(result.files_scanned, 5);
}

#[test]
fn permission_errors_are_tallied_every_tenth() {
    let mut walk = Vec::new();
    for i in 0..25 {
        walk.push(denied(&format!("root/locked{}", i)));
    }
    let (log, result, _) = drive(searcher("*", false, 0, 0), false, walk, &|_| 0, 0);
    assert_eq!(result.permission_errors, 25);
    assert_eq!(result.files_scanned, 25);
    let statuses = statuses_of(&log);
    assert!(statuses.contains(&"PermissionErrors(10)".to_string()));
    assert!(statuses.contains(&"PermissionErrors(20)".to_string()));
    assert!(statuses.contains(&"PermissionErrors(25)".to_string()));
    assert!(!statuses.contains(&"PermissionErrors(5)".to_string()));
    assert!(!statuses.iter().any(|s| s.contains("Permission denied")));
}

#[test]
fn other_walk_errors_are_counted_as_scanned_only() {
    let walk = vec![
        WalkItem::Error(WalkError { path: Some("root/x".to_string()), permission_denied: false }),
        WalkItem::Error(WalkError { path: None, permission_denied: true }),
        WalkItem::Error(WalkError { path: None, permission_denied: false }),
        file("a"),
    ];
    let searcher = Searcher::new(
        create_matcher("*", false).unwrap(),
        "root".to_string(),
        None,
        0,
        0,
        false,
        false,
        true,
    );
    let (log, result, _) = drive(searcher, false, walk, &|_| 0, 0);
    assert_eq!(result.permission_errors, 0);
    assert_eq!(result.files_scanned, 4);
    assert_eq!(result.matches, 1);
    assert!(!statuses_of(&log).iter().any(|s| s.contains("Permission denied")));
}

#[test]
fn every_tenth_match_is_followed_by_a_note() {
    let walk: Vec<WalkItem> = (0..25).map(|i| file(&format!("f{}", i))).collect();
    let (log, result, _) = drive(searcher("*", false, 0, 0), false, walk, &|_| 0, 0);
    assert_eq!(result.matches, 25);
    let shown: Vec<String> = log.iter().map(|event| format!("{:?}", event)).collect();
    let tenth = shown.iter().position(|s| s == "Match(\"root/f9\")").unwrap();
    assert_eq!(shown[tenth + 1], "Status(CurrentPath(\"Found 10 matches so far...\"))");
    assert_eq!(shown[tenth + 2], "Match(\"root/f10\")");
    let twentieth = shown.iter().position(|s| s == "Match(\"root/f19\")").unwrap();
    assert_eq!(shown[twentieth + 1], "Status(CurrentPath(\"Found 20 matches so far...\"))");
    assert_eq!(shown.iter().filter(|s| s.contains("matches so far")).count(), 2);
}

#[test]
fn timeout_while_collecting() {
    let walk: Vec<WalkItem> = (0..10).map(|i| file(&format!("f{}", i))).collect();
    let clock = |i: usize| if i < 3 { 0 } else { 2 * SECOND + 1 };
    let (log, result, _) = drive(searcher("*", false, 0, 2), false, walk, &clock, 2 * SECOND + 5);
    assert!(result.timed_out);
    assert!(!result.limit_reached);
    assert_eq!(result.files_scanned, 3);
    assert_eq!(result.matches, 0);
    assert!(result.elapsed.nanos > 2 * SECOND);
    let statuses = statuses_of(&log);
    assert!(statuses.contains(&"Timeout(2)".to_string()));
    assert!(statuses.contains(&"CurrentPath(\"Searching 3 files...\")".to_string()));
    assert_eq!(statuses.last().unwrap(), "Done");
}

#[test]
fn timeout_is_strict() {
    let walk: Vec<WalkItem> = (0..3).map(|i| file(&format!("f{}", i))).collect();
    let (_, result, _) = drive(searcher("*", false, 0, 2), false, walk, &|_| 2 * SECOND, 2 * SECOND);
    assert!(!result.timed_out);
    assert_eq!(result.matches, 3);
    let walk: Vec<WalkItem> = (0..3).map(|i| file(&format!("f{}", i))).collect();
    let (_, result, _) =
        drive(searcher("*", false, 0, 2), false, walk, &|_| 2 * SECOND + 1, 2 * SECOND + 1);
    assert!(result.timed_out);
    assert_eq!(result.files_scanned, 0);
}

#[test]
fn timeout_of_zero_means_none() {
    let walk: Vec<WalkItem> = (0..3).map(|i| file(&format!("f{}", i))).collect();
    let (_, result, _) =
        drive(searcher("*", false, 0, 0), false, walk, &|_| u128::MAX, u128::MAX);
    assert!(!result.timed_out);
    assert_eq!(result.matches, 3);
}

#[test]
fn timeout_while_filtering_is_reported() {
    let walk: Vec<WalkItem> = (0..5).map(|i| file(&format!("f{}", i))).collect();
    let (mut run, mut log, _) = searcher("*", false, 0, 1).search(false, at(0));
    for item in walk {
        log.extend(run.collect(at(0), item));
    }
    log.extend(run.end_collecting());
    log.extend(run.filter(at(0)));
    log.extend(run.filter(at(SECOND)));
    assert!(run.is_filtering());
    log.extend(run.filter(at(SECOND + 1)));
    assert!(!run.is_filtering());
    log.extend(run.filter(at(0)));
    let (last, result) = run.finish(at(SECOND + 2));
    log.extend(last);
    assert!(result.timed_out);
    assert!(!result.limit_reached);
    assert_eq!(result.matches, 2);
    assert_eq!(matches_of(&log), vec!["root/f0", "root/f1"]);
    let statuses = statuses_of(&log);
    assert_eq!(statuses.iter().filter(|s| s.starts_with("Timeout")).count(), 1);
    assert_eq!(statuses[statuses.len() - 2], "Timeout(1)");
    assert_eq!(statuses[statuses.len() - 1], "Done");
    let shown: Vec<String> = log.iter().map(|event| format!("{:?}", event)).collect();
    let told = shown.iter().position(|s| s == "Status(Timeout(1))").unwrap();
    assert_eq!(shown[told - 1], "Match(\"root/f1\")");
}

#[test]
fn bounds_never_both_trip() {
    for cap in 0..6usize {
        for late_from in 0..6usize {
            let walk: Vec<WalkItem> = (0..5).map(|i| file(&format!("f{}", i))).collect();
            let clock = move |i: usize| if i < late_from { 0 } else { 2 * SECOND };
            for filter_clock in [0, 2 * SECOND] {
                let walk = walk.clone();
                let (log, result, _) =
                    drive(searcher("*", false, cap, 1), false, walk, &clock, filter_clock);
                assert!(!(result.limit_reached && result.timed_out));
                let statuses = statuses_of(&log);
                let told_timeout = statuses.iter().any(|s| s.starts_with("Timeout"));
                let told_limit = statuses.iter().any(|s| s.starts_with("LimitReached"));
                assert!(!(told_timeout && told_limit));
                assert_eq!(told_timeout, result.timed_out);
                assert_eq!(told_limit, result.limit_reached);
                if cap > 0 {
                    assert!(result.files_scanned <= cap);
                }
            }
        }
    }
}

#[test]
fn timeout_comes_before_the_cap_on_the_same_item() {
    let walk: Vec<WalkItem> = (0..5).map(|i| file(&format!("f{}", i))).collect();
    let clock = |i: usize| if i < 2 { 0 } else { 2 * SECOND };
    let (_, result, _) = drive(searcher("*", false, 3, 1), false, walk, &clock, 0);
    assert!(result.timed_out);
    assert!(!result.limit_reached);
    assert_eq!(result.files_scanned, 2);
}

#[test]
fn done_is_last_and_sent_once() {
    let (mut run, mut log, _) = searcher("*.txt", false, 0, 0).search(false, at(0));
    for item in small_tree() {
        log.extend(run.collect(at(0), item));
    }
    log.extend(run.end_collecting());
    while run.is_filtering() {
        log.extend(run.filter(at(0)));
    }
    let (last, first_result) = run.finish(at(7));
    log.extend(last);
    assert!(run.is_done());
    log.extend(run.collect(at(0), file("late.txt")));
    log.extend(run.end_collecting());
    log.extend(run.filter(at(0)));
    let (again, second_result) = run.finish(at(7));
    assert!(again.is_empty());
    log.extend(again);
    assert_eq!(first_result, second_result);
    let shown: Vec<String> = log.iter().map(|event| format!("{:?}", event)).collect();
    assert_eq!(shown.iter().filter(|s| *s == "Status(Done)").count(), 1);
    assert_eq!(shown.last().unwrap(), "Status(Done)");
    let done = shown.len() - 1;
    for (i, event) in log.iter().enumerate() {
        if matches!(event, SearchEvent::Match(_)) {
            assert!(i < done);
        }
    }
    assert_eq!(matches_of(&log).len(), 2);
}

#[test]
fn steps_out_of_turn_change_nothing() {
    let (mut run, _, _) = searcher("*", false, 0, 0).search(false, at(0));
    assert!(run.filter(at(0)).is_empty());
    assert!(run.is_collecting());
    run.collect(at(0), file("a"));
    assert_eq!(run.end_collecting().len(), 3);
    assert!(run.end_collecting().is_empty());
    assert!(run.collect(at(0), file("b")).is_empty());
    assert_eq!(run.files_scanned(), 1);
    assert_eq!(run.filter(at(0)).len(), 1);
    assert!(run.filter(at(0)).is_empty());
}

#[test]
fn finish_without_filtering_still_ends_the_stream() {
    let (mut run, _, _) = searcher("*", false, 0, 0).search(false, at(0));
    run.collect(at(0), file("a"));
    let (last, result) = run.finish(at(3));
    assert_eq!(last.len(), 1);
    assert!(matches!(last[0], SearchEvent::Status(StatusMessage::Done)));
    assert_eq!(result.files_scanned, 1);
    assert_eq!(result.matches, 0);
    assert_eq!(result.elapsed, at(3));
}

#[test]
fn same_search_twice_gives_same_matches() {
    let first = drive(searcher("*.txt", false, 0, 60), false, small_tree(), &|i| i as u128, 9);
    let second =
        drive(searcher("*.txt", false, 0, 60), false, small_tree(), &|i| 1000 * i as u128, SECOND);
    assert_eq!(matches_of(&first.0), matches_of(&second.0));
    assert_eq!(statuses_of(&first.0), statuses_of(&second.0));
    assert_eq!(first.1.matches, second.1.matches);
    assert_eq!(first.1.files_scanned, second.1.files_scanned);
}

#[test]
fn matches_come_in_the_order_of_the_walk() {
    let walk = vec![file("z.txt"), file("a.txt"), file("m.txt")];
    let (log, _, _) = drive(searcher("*.txt", false, 0, 0), false, walk, &|_| 0, 0);
    assert_eq!(matches_of(&log), vec!["root/z.txt", "root/a.txt", "root/m.txt"]);
}

#[test]
fn permission_hint_only_beyond_five_errors() {
    assert!(Searcher::print_permission_hint(0, ".", "*", false).is_empty());
    assert!(Searcher::print_permission_hint(5, ".", "*", true).is_empty());
    assert_eq!(
        Searcher::print_permission_hint(6, "/var", "*.log", false),
        vec![
            "Hint: Many permission errors encountered. Try running with sudo:",
            "sudo seek \"/var\" \"*.log\"",
        ]
    );
    assert_eq!(
        Searcher::print_permission_hint(100, "/", "x", true),
        vec![
            "Hint: Many permission errors encountered. Try running with sudo:",
            "sudo seek \"/\" \"x\"",
            "On macOS, some directories may still be restricted due to System Integrity Protection.",
            "For searching user data directories, you may need to grant Terminal 'Full Disk Access'",
            "in System Preferences \u{2192} Privacy & Security \u{2192} Full Disk Access.",
        ]
    );
}

#[test]
fn elapsed_comparisons() {
    assert!(!at(0).is_beyond(0));
    assert!(at(1).is_beyond(0));
    assert!(!at(600 * SECOND).is_beyond(600));
    assert!(at(600 * SECOND + 1).is_beyond(600));
    assert!(!at(u64::MAX as u128 * SECOND).is_beyond(u64::MAX));
    assert!(at(u64::MAX as u128 * SECOND + 1).is_beyond(u64::MAX));
    assert!(at(u128::MAX).is_beyond(u64::MAX));
    assert_eq!(at(0).for_display(), at(100_000_000));
    assert_eq!(at(99_999_999).for_display(), at(100_000_000));
    assert_eq!(at(100_000_000).for_display(), at(100_000_000));
    assert_eq!(at(5 * SECOND).for_display(), at(5 * SECOND));
}

/// Drives a whole search by `advance` alone, handing over what is asked for.
fn drive_by_turns(
    searcher: Searcher,
    full_path: bool,
    walk: Vec<WalkItem>,
    clock: &dyn Fn(usize) -> u128,
) -> (Vec<SearchEvent>, SearchRun, usize) {
    let (mut run, mut log, _) = searcher.search(full_path, at(0));
    let mut walk = walk.into_iter();
    let mut wants = Next::Walk;
    let mut turns = 0;
    loop {
        let input = match wants {
            Next::Walk => match walk.next() {
                Some(item) => Input::Item(item),
                None => Input::WalkEnded,
            },
            Next::Tick => Input::Tick,
            Next::Done => break,
        };
        let (events, next) = run.advance(at(clock(turns)), input);
        log.extend(events);
        wants = next;
        turns += 1;
    }
    (log, run, turns)
}

#[test]
fn driving_by_turns_runs_the_whole_search() {
    let (log, mut run, turns) =
        drive_by_turns(searcher("*.txt", false, 0, 0), false, small_tree(), &|_| 0);
    let shown: Vec<String> = log.iter().map(|event| format!("{:?}", event)).collect();
    assert_eq!(
        shown,
        vec![
            "Status(CurrentPath(\"Starting search...\"))",
            "Status(FileCount(5, 0))",
            "Status(PermissionErrors(0))",
            "Status(CurrentPath(\"Searching 5 files...\"))",
            "Match(\"root/a.txt\")",
            "Match(\"root/sub/c.txt\")",
            "Status(Done)",
        ]
    );
    assert_eq!(turns, 5 + 1 + 5 + 1);
    assert!(run.is_done());
    let (again, next) = run.advance(at(0), Input::Tick);
    assert!(again.is_empty());
    assert_eq!(next, Next::Done);
    let (nothing, result) = run.finish(at(9));
    assert!(nothing.is_empty());
    assert_eq!(result.matches, 2);
    assert_eq!(result.files_scanned, 5);
}

#[test]
fn driving_by_turns_agrees_with_driving_by_steps() {
    for cap in [0usize, 1, 3, 5, 6] {
        for timeout in [0u64, 1] {
            for late_from in [0usize, 2, 4, 100] {
                let clock = move |i: usize| if i < late_from { 0 } else { 2 * SECOND };
                let (by_turns, _, _) =
                    drive_by_turns(searcher("*", false, cap, timeout), false, small_tree(), &clock);
                let (mut run, mut by_steps, _) =
                    searcher("*", false, cap, timeout).search(false, at(0));
                let mut turn = 0;
                for item in small_tree() {
                    if !run.is_collecting() {
                        break;
                    }
                    by_steps.extend(run.collect(at(clock(turn)), item));
                    turn += 1;
                }
                if run.is_collecting() {
                    turn += 1;
                }
                by_steps.extend(run.end_collecting());
                while run.is_filtering() {
                    by_steps.extend(run.filter(at(clock(turn))));
                    turn += 1;
                }
                by_steps.extend(run.finish(at(clock(turn))).0);
                let a: Vec<String> = by_turns.iter().map(|e| format!("{:?}", e)).collect();
                let b: Vec<String> = by_steps.iter().map(|e| format!("{:?}", e)).collect();
                assert_eq!(a, b);
            }
        }
    }
}

#[test]
fn a_tripped_bound_closes_the_collecting_in_the_same_turn() {
    let (mut run, _, _) = searcher("*", false, 2, 0).search(false, at(0));
    let (events, next) = run.advance(at(0), Input::Item(file("a")));
    let shown: Vec<String> = events.iter().map(|event| format!("{:?}", event)).collect();
    assert_eq!(shown, vec!["Status(FileCount(1, 2))"]);
    assert_eq!(next, Next::Walk);
    let (events, next) = run.advance(at(0), Input::Item(file("b")));
    let shown: Vec<String> = events.iter().map(|event| format!("{:?}", event)).collect();
    assert_eq!(
        shown,
        vec![
            "Status(LimitReached(2))",
            "Status(FileCount(2, 2))",
            "Status(PermissionErrors(0))",
            "Status(CurrentPath(\"Searching 1 files...\"))",
        ]
    );
    assert_eq!(next, Next::Tick);
    let (events, next) = run.advance(at(0), Input::Item(file("c")));
    assert_eq!(events.len(), 1);
    assert!(matches!(events[0], SearchEvent::Status(StatusMessage::Done)));
    assert_eq!(next, Next::Done);
    assert_eq!(run.files_scanned(), 2);
}

#[test]
fn input_out_of_turn_is_left_aside() {
    let (mut run, _, _) = searcher("*", false, 0, 0).search(false, at(0));
    let (events, next) = run.advance(at(0), Input::Tick);
    assert!(events.is_empty());
    assert_eq!(next, Next::Walk);
    assert_eq!(run.files_scanned(), 0);
    run.advance(at(0), Input::Item(file("a")));
    let (events, next) = run.advance(at(0), Input::WalkEnded);
    assert_eq!(events.len(), 3);
    assert_eq!(next, Next::Tick);
    let (events, next) = run.advance(at(0), Input::WalkEnded);
    assert_eq!(events.len(), 1);
    assert!(matches!(&events[0], SearchEvent::Match(path) if path == "root/a"));
    assert_eq!(next, Next::Tick);
}
