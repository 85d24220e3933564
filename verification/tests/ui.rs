use seek::events::Elapsed;
use seek::events::SearchResult;
use seek::events::StatusMessage;
use seek::ui::seconds_string;
use seek::ui::DisplayManager;
use seek::ui::IdleReaction;
use seek::ui::Polled;
use seek::ui::Reaction;
use seek::ui::Shown;
use seek::display::Want;
use seek::display::MATCH_BATCH;
use seek::display::PAUSE_MILLIS;
use seek::display::REFRESH_NANOS;

fn shown(reaction: Reaction) -> String {
    match reaction {
        Reaction::Show(line) => line,
        Reaction::Exit => panic!("the polling ends on Done alone"),
    }
}

fn result(matches: usize, scanned: usize, errors: usize, nanos: u128) -> SearchResult {
    SearchResult {
        matches,
        files_scanned: scanned,
        permission_errors: errors,
        elapsed: Elapsed { nanos },
        limit_reached: false,
        timed_out: false,
    }
}

#[test]
fn polling_constants() {
    assert_eq!(MATCH_BATCH, 10);
    assert_eq!(REFRESH_NANOS, 100_000_000);
    assert_eq!(PAUSE_MILLIS, 10);
}

#[test]
fn status_line_before_anything_is_heard() {
    let display = DisplayManager::new();
    assert_eq!(display.status_line(), "Searching in: ... (searching)");
    assert_eq!(display.tallies(), (0, 0, 0, false, false));
}

#[test]
fn status_reports_update_the_line() {
    let mut display = DisplayManager::new();
    assert_eq!(
        shown(display.on_status(StatusMessage::CurrentPath("Starting search...".to_string()))),
        "Searching in: Starting search... (searching)"
    );
    assert_eq!(
        shown(display.on_status(StatusMessage::FileCount(1000, 500000))),
        "Searching in: Starting search... (1000 scanned, 499000 remaining)"
    );
    assert_eq!(
        shown(display.on_status(StatusMessage::PermissionErrors(10))),
        "Searching in: Starting search... (1000 scanned, 10 permission errors, 499000 remaining)"
    );
    assert_eq!(
        shown(display.on_status(StatusMessage::CurrentPath("sub/dir".to_string()))),
        "Searching in: sub/dir (1000 scanned, 10 permission errors, 499000 remaining)"
    );
    assert_eq!(
        shown(display.on_status(StatusMessage::FileCount(2000, 0))),
        "Searching in: sub/dir (2000 scanned, 10 permission errors)"
    );
    assert_eq!(
        shown(display.on_status(StatusMessage::FileCount(7, 7))),
        "Searching in: sub/dir (7 scanned, 10 permission errors)"
    );
    assert_eq!(
        shown(display.on_status(StatusMessage::FileCount(9, 7))),
        "Searching in: sub/dir (9 scanned, 10 permission errors)"
    );
    assert_eq!(display.tallies(), (0, 9, 10, false, false));
}

#[test]
fn first_matches_take_over_the_line() {
    let mut display = DisplayManager::new();
    display.on_status(StatusMessage::FileCount(50, 0));
    assert_eq!(display.on_match().as_deref(), Some("Found 1 match! Continuing search..."));
    assert_eq!(display.on_match(), None);
    assert_eq!(display.status_line(), "Found 2 matches! Continuing search...");
    assert_eq!(display.on_match(), None);
    assert_eq!(display.on_match(), None);
    assert_eq!(display.status_line(), "Found 4 matches! Continuing search...");
    assert_eq!(
        display.on_match().as_deref(),
        Some("Searching in: ... (50 scanned, 5 found)")
    );
    for _ in 0..4 {
        assert_eq!(display.on_match(), None);
    }
    assert_eq!(
        display.on_match().as_deref(),
        Some("Searching in: ... (50 scanned, 10 found)")
    );
    assert_eq!(display.tallies(), (10, 50, 0, false, false));
}

#[test]
fn a_pass_takes_ten_matches_at_most() {
    let mut display = DisplayManager::new();
    let mut taken = 0;
    while display.wants_match() {
        display.on_match();
        taken += 1;
    }
    assert_eq!(taken, 10);
    assert!(!display.wants_match());
    display.on_match();
    assert!(!display.wants_match());
    display.end_pass(Elapsed { nanos: 0 });
    assert!(display.wants_match());
    assert_eq!(display.tallies().0, 11);
}

#[test]
fn tripped_bounds_get_their_own_line_and_polling_goes_on() {
    let mut display = DisplayManager::new();
    display.on_status(StatusMessage::FileCount(1234, 0));
    display.on_match();
    assert_eq!(
        shown(display.on_status(StatusMessage::Timeout(600))),
        "Search timed out after 600 seconds! (1234 scanned, 1 found)"
    );
    assert_eq!(display.tallies(), (1, 1234, 0, false, true));

    let mut display = DisplayManager::new();
    assert_eq!(
        shown(display.on_status(StatusMessage::LimitReached(500000))),
        "File limit reached (500000)! Finishing search..."
    );
    assert_eq!(display.tallies(), (0, 0, 0, true, false));
    assert!(display.wants_match());
}

#[test]
fn done_ends_the_polling() {
    let mut display = DisplayManager::new();
    display.on_status(StatusMessage::FileCount(3, 0));
    assert!(matches!(display.on_status(StatusMessage::Done), Reaction::Exit));
    assert_eq!(display.tallies(), (0, 3, 0, false, false));
}

#[test]
fn quiet_pass_refreshes_after_a_tenth_of_a_second() {
    let mut display = DisplayManager::new();
    assert!(matches!(display.end_pass(Elapsed { nanos: 100_000_000 }), IdleReaction::Wait));
    match display.end_pass(Elapsed { nanos: 100_000_001 }) {
        IdleReaction::Show(line) => assert_eq!(line, "Preparing search..."),
        _ => panic!("a quiet start shows the preparing line"),
    }
    display.on_status(StatusMessage::FileCount(5, 0));
    assert!(matches!(display.end_pass(Elapsed { nanos: 200_000_000 }), IdleReaction::Wait));
    match display.end_pass(Elapsed { nanos: 200_000_000 }) {
        IdleReaction::Show(line) => assert_eq!(line, "Searching in: ... (5 scanned)"),
        _ => panic!("a quiet pass shows the status line"),
    }
    display.on_match();
    assert!(matches!(display.end_pass(Elapsed { nanos: 900_000_000 }), IdleReaction::Wait));
}

#[test]
fn quiet_pass_after_a_tripped_bound_shows_nothing_new() {
    let mut display = DisplayManager::new();
    display.on_status(StatusMessage::LimitReached(3));
    display.end_pass(Elapsed { nanos: 0 });
    assert!(matches!(display.end_pass(Elapsed { nanos: 500_000_000 }), IdleReaction::Restart));
    assert!(matches!(display.end_pass(Elapsed { nanos: 50_000_000 }), IdleReaction::Wait));
    let mut display = DisplayManager::new();
    display.on_status(StatusMessage::Timeout(1));
    display.end_pass(Elapsed { nanos: 0 });
    assert!(matches!(display.end_pass(Elapsed { nanos: 500_000_000 }), IdleReaction::Restart));
}

#[test]
fn seconds_with_one_decimal() {
    assert_eq!(seconds_string(Elapsed { nanos: 0 }), "0.1");
    assert_eq!(seconds_string(Elapsed { nanos: 99_999_999 }), "0.1");
    assert_eq!(seconds_string(Elapsed { nanos: 100_000_000 }), "0.1");
    assert_eq!(seconds_string(Elapsed { nanos: 149_999_999 }), "0.1");
    assert_eq!(seconds_string(Elapsed { nanos: 150_000_000 }), "0.2");
    assert_eq!(seconds_string(Elapsed { nanos: 949_999_999 }), "0.9");
    assert_eq!(seconds_string(Elapsed { nanos: 950_000_000 }), "1.0");
    assert_eq!(seconds_string(Elapsed { nanos: 1_000_000_000 }), "1.0");
    assert_eq!(seconds_string(Elapsed { nanos: 1_234_000_000 }), "1.2");
    assert_eq!(seconds_string(Elapsed { nanos: 12_960_000_000 }), "13.0");
    assert_eq!(seconds_string(Elapsed { nanos: 600_040_000_000 }), "600.0");
    assert_eq!(
        seconds_string(Elapsed { nanos: u128::MAX }),
        "340282366920938463463374607431.8"
    );
}

#[test]
fn summary_of_a_completed_search() {
    let display = DisplayManager::new();
    assert_eq!(
        display.finish(&result(0, 5, 0, 0), "."),
        "Search complete! No matches found in . (0.1s, 5 files)"
    );
    assert_eq!(
        display.finish(&result(1, 5, 0, 1_500_000_000), "/tmp/tree"),
        "Search complete! Found 1 match in /tmp/tree (1.5s, 5 files)"
    );
    assert_eq!(
        display.finish(&result(2, 1200, 3, 12_340_000_000), "src"),
        "Search complete! Found 2 matches in src (12.3s, 1200 files, 3 permission errors)"
    );
}

#[test]
fn summary_of_a_search_that_timed_out() {
    let display = DisplayManager::new();
    let mut r = result(7, 90000, 0, 600_010_000_000);
    r.timed_out = true;
    assert_eq!(
        display.finish(&r, "/"),
        "Search timed out after 600.0s! Found 7 matches in / (scanned 90000 files)"
    );
    r.permission_errors = 2;
    assert_eq!(
        display.finish(&r, "/"),
        "Search timed out after 600.0s! Found 7 matches in / (scanned 90000 files, 2 permission errors)"
    );
}

#[test]
fn summary_of_a_search_that_reached_its_cap() {
    let display = DisplayManager::new();
    let mut r = result(0, 500000, 0, 2_000_000_000);
    r.limit_reached = true;
    assert_eq!(
        display.finish(&r, "/usr"),
        "Search stopped at file limit! No matches found in /usr (2.0s, 500000 files)"
    );
    r.permission_errors = 12;
    r.matches = 1;
    assert_eq!(
        display.finish(&r, "/usr"),
        "Search stopped at file limit! Found 1 match in /usr (2.0s, 500000 files, 12 permission errors)"
    );
    r.files_scanned = 2;
    assert_eq!(
        display.finish(&r, "/usr"),
        "Search stopped at file limit! Found 1 match in /usr (2.0s, 2 files, 12 permission errors)"
    );
}

fn lines(shown: &[Shown]) -> Vec<String> {
    shown.iter().map(|one| format!("{:?}", one)).collect()
}

fn ms(millis: u128) -> Elapsed {
    Elapsed { nanos: millis * 1_000_000 }
}

#[test]
fn a_pass_polls_status_then_matches_then_rests() {
    let mut display = DisplayManager::new();
    let (shown, want) = display.advance(ms(0), Polled::Status(StatusMessage::FileCount(3, 0)));
    assert_eq!(lines(&shown), vec!["Line(\"Searching in: ... (3 scanned)\")"]);
    assert_eq!(want, Want::Match);
    let (shown, want) = display.advance(ms(0), Polled::Match("root/a.txt".to_string()));
    assert_eq!(
        lines(&shown),
        vec!["Path(\"root/a.txt\")", "Line(\"Found 1 match! Continuing search...\")"]
    );
    assert_eq!(want, Want::Match);
    let (shown, want) = display.advance(ms(0), Polled::Match("root/b.txt".to_string()));
    assert_eq!(lines(&shown), vec!["Path(\"root/b.txt\")"]);
    assert_eq!(want, Want::Match);
    let (shown, want) = display.advance(ms(1), Polled::NoMatch);
    assert!(shown.is_empty());
    assert_eq!(want, Want::Rest);
    let (shown, want) = display.advance(ms(11), Polled::Rested);
    assert!(shown.is_empty());
    assert_eq!(want, Want::Status);
    let (shown, want) = display.advance(ms(11), Polled::Status(StatusMessage::Done));
    assert!(shown.is_empty());
    assert_eq!(want, Want::Match);
    let (shown, want) = display.advance(ms(11), Polled::NoMatch);
    assert!(shown.is_empty());
    assert_eq!(want, Want::Leave);
    assert_eq!(display.tallies(), (2, 3, 0, false, false));
}

#[test]
fn a_pass_ends_after_ten_matches() {
    let mut display = DisplayManager::new();
    let (_, want) = display.advance(ms(0), Polled::NoStatus);
    assert_eq!(want, Want::Match);
    for i in 1..=10 {
        let (shown, want) = display.advance(ms(0), Polled::Match(format!("m{}", i)));
        assert_eq!(shown.len(), if i == 1 || i == 5 || i == 10 { 2 } else { 1 });
        assert_eq!(want, if i < 10 { Want::Match } else { Want::Rest });
    }
    let (_, want) = display.advance(ms(10), Polled::Rested);
    assert_eq!(want, Want::Status);
    let (_, want) = display.advance(ms(10), Polled::NoStatus);
    assert_eq!(want, Want::Match);
    let (shown, want) = display.advance(ms(10), Polled::Match("m11".to_string()));
    assert_eq!(lines(&shown), vec!["Path(\"m11\")"]);
    assert_eq!(want, Want::Match);
    assert_eq!(display.tallies().0, 11);
}

#[test]
fn quiet_passes_refresh_the_line_every_tenth_of_a_second() {
    let mut display = DisplayManager::new();
    let mut refreshed_at = Vec::new();
    let mut now = 0;
    for _ in 0..35 {
        let (shown, want) = display.advance(ms(now), Polled::NoStatus);
        assert!(shown.is_empty());
        assert_eq!(want, Want::Match);
        let (shown, want) = display.advance(ms(now), Polled::NoMatch);
        assert_eq!(want, Want::Rest);
        if !shown.is_empty() {
            assert_eq!(lines(&shown), vec!["Line(\"Preparing search...\")"]);
            refreshed_at.push(now);
        }
        now += 10;
        let (_, want) = display.advance(ms(now), Polled::Rested);
        assert_eq!(want, Want::Status);
    }
    assert_eq!(refreshed_at, vec![110, 220, 330]);
}

#[test]
fn a_heard_status_puts_off_the_refresh() {
    let mut display = DisplayManager::new();
    display.advance(ms(0), Polled::Status(StatusMessage::FileCount(1, 0)));
    let (shown, _) = display.advance(ms(0), Polled::NoMatch);
    assert!(shown.is_empty());
    display.advance(ms(10), Polled::Rested);
    display.advance(ms(500), Polled::Status(StatusMessage::FileCount(2, 0)));
    let (shown, _) = display.advance(ms(500), Polled::NoMatch);
    assert!(shown.is_empty());
    display.advance(ms(510), Polled::Rested);
    display.advance(ms(510), Polled::NoStatus);
    let (shown, _) = display.advance(ms(510), Polled::NoMatch);
    assert_eq!(lines(&shown), vec!["Line(\"Searching in: ... (2 scanned)\")"]);
    display.advance(ms(520), Polled::Rested);
    display.advance(ms(520), Polled::NoStatus);
    let (shown, _) = display.advance(ms(520), Polled::NoMatch);
    assert!(shown.is_empty());
}

#[test]
fn tripped_bound_keeps_the_polling_going_until_done() {
    let mut display = DisplayManager::new();
    let (shown, want) = display.advance(ms(0), Polled::Status(StatusMessage::LimitReached(7)));
    assert_eq!(lines(&shown), vec!["Line(\"File limit reached (7)! Finishing search...\")"]);
    assert_eq!(want, Want::Match);
    let (shown, want) = display.advance(ms(0), Polled::Match("late".to_string()));
    assert_eq!(lines(&shown)[0], "Path(\"late\")");
    assert_eq!(want, Want::Match);
    display.advance(ms(0), Polled::NoMatch);
    display.advance(ms(400), Polled::Rested);
    display.advance(ms(400), Polled::NoStatus);
    let (shown, want) = display.advance(ms(400), Polled::NoMatch);
    assert!(shown.is_empty());
    assert_eq!(want, Want::Rest);
    assert_eq!(display.tallies(), (1, 0, 0, true, false));
}

#[test]
fn closed_status_stream_ends_the_polling() {
    let mut display = DisplayManager::new();
    let (shown, want) = display.advance(ms(0), Polled::Closed);
    assert!(shown.is_empty());
    assert_eq!(want, Want::Match);
    let (shown, want) = display.advance(ms(0), Polled::NoMatch);
    assert!(shown.is_empty());
    assert_eq!(want, Want::Leave);
}

#[test]
fn clock_that_runs_backwards_counts_as_no_quiet_time() {
    let mut display = DisplayManager::new();
    display.advance(ms(500), Polled::NoStatus);
    let (shown, _) = display.advance(ms(500), Polled::NoMatch);
    assert_eq!(shown.len(), 1);
    display.advance(ms(100), Polled::NoStatus);
    let (shown, want) = display.advance(ms(100), Polled::NoMatch);
    assert!(shown.is_empty());
    assert_eq!(want, Want::Rest);
}

#[test]
fn done_before_a_queued_match_still_shows_the_match() {
    let mut display = DisplayManager::new();
    let (shown, want) = display.advance(ms(0), Polled::Status(StatusMessage::Done));
    assert!(shown.is_empty());
    assert_eq!(want, Want::Match);
    let (shown, want) = display.advance(ms(0), Polled::Match("a.txt".to_string()));
    assert_eq!(
        lines(&shown),
        vec!["Path(\"a.txt\")", "Line(\"Found 1 match! Continuing search...\")"]
    );
    assert_eq!(want, Want::Match);
    for i in 2..=25 {
        let (shown, want) = display.advance(ms(0), Polled::Match(format!("m{}", i)));
        assert_eq!(lines(&shown)[0], format!("Path(\"m{}\")", i));
        assert_eq!(want, Want::Match);
    }
    let (shown, want) = display.advance(ms(0), Polled::NoMatch);
    assert!(shown.is_empty());
    assert_eq!(want, Want::Leave);
    assert_eq!(display.tallies().0, 25);
}
