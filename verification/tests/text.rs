use cosmic_applet_app_title::text::{is_new_window_action_id, trimmed, truncate_title};

#[test]
fn short_titles_are_kept() {
    assert_eq!(truncate_title("", 0), "");
    assert_eq!(truncate_title("abc", 3), "abc");
    assert_eq!(truncate_title("Files", 40), "Files");
}

#[test]
fn long_titles_end_in_dots() {
    assert_eq!(truncate_title("abcdef", 5), "ab...");
    assert_eq!(truncate_title("abcd", 3), "...");
    assert_eq!(truncate_title("abcdefghij", 9), "abcdef...");
}

#[test]
fn tiny_limits_leave_only_dots() {
    assert_eq!(truncate_title("abcdef", 2), "...");
    assert_eq!(truncate_title("a", 0), "...");
}

#[test]
fn titles_are_counted_in_characters() {
    assert_eq!(truncate_title("äöüß", 4), "äöüß");
    assert_eq!(truncate_title("äöüßé", 4), "ä...");
}

#[test]
fn truncation_is_idempotent() {
    let once = truncate_title("A very long window title", 10);
    assert_eq!(once, "A very ...");
    assert_eq!(truncate_title(&once, 10), once);
    assert_eq!(truncate_title(&truncate_title("abcdef", 1), 1), "...");
}

#[test]
fn new_window_actions_are_recognised() {
    for id in [
        "new",
        "new-window",
        "NewWindow",
        "new_empty_window",
        "New Main Window",
        "new-window;",
        "n\u{e9}ew",
    ] {
        assert!(is_new_window_action_id(id), "{}", id);
    }
}

#[test]
fn other_actions_are_no_new_window() {
    for id in ["", "new-private-window", "newtab", "windownew", "new2", "ne"] {
        assert!(!is_new_window_action_id(id), "{}", id);
    }
}

#[test]
fn only_ascii_counts_in_action_ids() {
    // The Kelvin sign is a capital K in another script, and not ASCII.
    assert!(is_new_window_action_id("\u{212a}new"));
    assert!(!is_new_window_action_id("\u{ff4e}ew"));
}

#[test]
fn texts_are_trimmed() {
    assert_eq!(trimmed("  a b \t\n"), Some("a b".to_string()));
    assert_eq!(trimmed("\u{3000}x\u{a0}"), Some("x".to_string()));
    assert_eq!(trimmed("\u{200b}"), Some("\u{200b}".to_string()));
    assert_eq!(trimmed(""), None);
    assert_eq!(trimmed(" \u{2003}\r\n"), None);
}

#[test]
fn white_space_is_the_unicode_property() {
    for c in '\0'..=char::MAX {
        let n = c as u32;
        let white = (0x9..=0xd).contains(&n)
            || (0x2000..=0x200a).contains(&n)
            || [0x20, 0x85, 0xa0, 0x1680, 0x2028, 0x2029, 0x202f, 0x205f, 0x3000].contains(&n);
        assert_eq!(trimmed(&c.to_string()).is_none(), white, "{:x}", n);
    }
}

#[test]
fn cutting_twice_is_cutting_once() {
    for title in ["", "ab", "abcdefghij", "äöüßäöüß"] {
        for first in 0..12 {
            for second in 0..=first {
                assert_eq!(
                    truncate_title(&truncate_title(title, first), second),
                    truncate_title(title, second)
                );
            }
        }
    }
}
