use doc_editor::document::save_request;
use doc_editor::metrics::{char_count, is_whitespace_char, word_count, Metrics};
use doc_editor::session::SAVE_DELAY_MS;
use doc_editor::{Document, Session};

fn is_uuid_v4_text(s: &str) -> bool {
    let cs: Vec<char> = s.chars().collect();
    if cs.len() != 36 {
        return false;
    }
    for (i, c) in cs.iter().enumerate() {
        if i == 8 || i == 13 || i == 18 || i == 23 {
            if *c != '-' {
                return false;
            }
        } else if !matches!(c, '0'..='9' | 'a'..='f') {
            return false;
        }
    }
    cs[14] == '4' && matches!(cs[19], '8' | '9' | 'a' | 'b')
}

#[test]
fn word_count_of_empty_text_is_zero() {
    assert_eq!(word_count(""), 0);
}

#[test]
fn word_count_ignores_runs_of_spaces() {
    assert_eq!(word_count("  a   b "), 2);
}

#[test]
fn word_count_splits_on_tabs_newlines_and_unicode_spaces() {
    assert_eq!(word_count("one\ttwo\nthree\r\nfour"), 4);
    assert_eq!(word_count("a\u{3000}b\u{00a0}c\u{2029}d"), 4);
    assert_eq!(word_count("   \t\n "), 0);
    assert_eq!(word_count("word"), 1);
    assert_eq!(word_count("caf\u{e9} na\u{ef}ve"), 2);
}

#[test]
fn word_count_matches_split_whitespace() {
    let samples = [
        "",
        " ",
        "x",
        "  leading",
        "trailing  ",
        "a b c d e",
        "mixed\u{85}next\u{1680}line\u{202f}end",
        "\u{200b}zero-width-space-is-not-white",
    ];
    for s in samples.iter() {
        assert_eq!(word_count(s), s.split_whitespace().count(), "{:?}", s);
    }
}

#[test]
fn whitespace_set_matches_std_for_every_char() {
    for u in 0u32..=0x10ffff {
        if let Some(c) = char::from_u32(u) {
            assert_eq!(is_whitespace_char(c), c.is_whitespace(), "U+{:04X}", u);
        }
    }
}

#[test]
fn char_count_counts_scalar_values_not_bytes() {
    assert_eq!(char_count("caf\u{e9}"), 4);
    assert_eq!("caf\u{e9}".len(), 5);
    assert_eq!(char_count(""), 0);
    assert_eq!(char_count("\u{1f600}a"), 2);
}

#[test]
fn metrics_of_text() {
    let m = Metrics::of("hello  w\u{f6}rld ");
    assert_eq!(m, Metrics { words: 2, chars: 13 });
}

#[test]
fn save_is_skipped_when_title_and_content_are_empty() {
    assert!(save_request("some-id", "", "").is_none());
}

#[test]
fn save_carries_id_title_and_content() {
    let d = save_request("id-1", "Title", "").unwrap();
    assert_eq!((d.id.as_str(), d.title.as_str(), d.content.as_str()), ("id-1", "Title", ""));
    let d = save_request("id-2", "", "body").unwrap();
    assert_eq!((d.id.as_str(), d.title.as_str(), d.content.as_str()), ("id-2", "", "body"));
}

#[test]
fn fresh_session_gets_a_v4_id() {
    let mut s = Session::new();
    assert_eq!(s.id, "");
    s.ensure_id();
    assert!(is_uuid_v4_text(&s.id), "{}", s.id);
    let first = s.id.clone();
    s.ensure_id();
    assert_eq!(s.id, first);
    let mut other = Session::new();
    other.ensure_id();
    assert_ne!(other.id, first);
}

#[test]
fn ensure_id_keeps_an_existing_id() {
    let mut s = Session::new();
    s.id = "kept".to_string();
    s.ensure_id();
    assert_eq!(s.id, "kept");
}

#[test]
fn hydration_takes_the_last_document() {
    let mut s = Session::new();
    s.ensure_id();
    let docs = vec![Document::new("a", "first", "one"), Document::new("b", "T", "C")];
    s.hydrate(Some(docs), 5);
    assert_eq!(s.id, "b");
    assert_eq!(s.title, "T");
    assert_eq!(s.content, "C");
    assert_eq!(s.recent.len(), 2);
    assert_eq!(s.recent[0].id, "a");
    assert_eq!(s.last_change, Some(5));
}

#[test]
fn failed_load_leaves_the_session_alone() {
    let mut s = Session::new();
    s.ensure_id();
    let id = s.id.clone();
    s.hydrate(None, 5);
    assert_eq!(s.id, id);
    assert_eq!(s.title, "");
    assert!(s.recent.is_empty());
    assert_eq!(s.last_change, None);
}

#[test]
fn empty_load_keeps_the_session_and_id_is_generated_after() {
    let mut s = Session::new();
    s.hydrate(Some(Vec::new()), 5);
    assert_eq!(s.id, "");
    assert_eq!(s.last_change, None);
    s.ensure_id();
    assert!(is_uuid_v4_text(&s.id));
}

#[test]
fn debounced_save_waits_for_the_delay() {
    let mut s = Session::new();
    s.id = "doc".to_string();
    s.set_title("Hello".to_string(), 100);
    assert!(s.poll(100 + SAVE_DELAY_MS - 1, "").is_none());
    assert_eq!(s.last_change, Some(100));
    let d = s.poll(100 + SAVE_DELAY_MS, "body").unwrap();
    assert_eq!((d.id.as_str(), d.title.as_str(), d.content.as_str()), ("doc", "Hello", "body"));
    assert_eq!(s.last_change, None);
    assert!(s.poll(100 + 5 * SAVE_DELAY_MS, "body").is_none());
}

#[test]
fn rapid_title_changes_save_only_the_last_title() {
    let mut s = Session::new();
    s.id = "doc".to_string();
    s.set_title("H".to_string(), 0);
    s.set_title("He".to_string(), 300);
    s.set_title("Hel".to_string(), 900);
    assert!(s.poll(1000, "").is_none());
    assert!(s.poll(1899, "").is_none());
    let d = s.poll(1900, "").unwrap();
    assert_eq!(d.title, "Hel");
    assert!(s.poll(2900, "").is_none());
}

#[test]
fn debounced_save_with_nothing_to_save_is_skipped() {
    let mut s = Session::new();
    s.id = "doc".to_string();
    s.set_title(String::new(), 0);
    assert!(s.poll(2000, "").is_none());
    assert_eq!(s.last_change, None);
}

#[test]
fn clock_going_back_does_not_fire_the_save() {
    let mut s = Session::new();
    s.set_content("x".to_string(), 5000);
    assert!(s.poll(10, "x").is_none());
    assert_eq!(s.last_change, Some(5000));
}

#[test]
fn widget_change_saves_at_once_and_updates_metrics() {
    let mut s = Session::new();
    s.id = "doc".to_string();
    s.title = "T".to_string();
    let (m, save) = s.widget_changed("two words", 42);
    assert_eq!(m, Metrics { words: 2, chars: 9 });
    let d = save.unwrap();
    assert_eq!((d.id.as_str(), d.title.as_str(), d.content.as_str()), ("doc", "T", "two words"));
    assert_eq!(s.content, "two words");
    assert_eq!(s.last_change, Some(42));
}

#[test]
fn widget_change_on_empty_document_saves_nothing() {
    let mut s = Session::new();
    s.id = "doc".to_string();
    let (m, save) = s.widget_changed("", 1);
    assert_eq!(m, Metrics { words: 0, chars: 0 });
    assert!(save.is_none());
}

#[test]
fn delete_clears_the_document_and_returns_its_id() {
    let mut s = Session::new();
    s.hydrate(Some(vec![Document::new("b", "T", "C")]), 0);
    let id = s.delete(10);
    assert_eq!(id, "b");
    assert_eq!(s.id, "");
    assert_eq!(s.title, "");
    assert_eq!(s.content, "");
    assert_eq!(s.last_change, Some(10));
    assert!(s.poll(2000, "").is_none());
    assert_eq!(s.recent.len(), 1);
}

#[test]
fn document_duplicate_copies_fields() {
    let d = Document::new("i", "t", "c");
    let e = d.duplicate();
    assert_eq!((e.id.as_str(), e.title.as_str(), e.content.as_str()), ("i", "t", "c"));
}
