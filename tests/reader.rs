use epub_reader::layout::{centered_rect, Area};
use epub_reader::markup::{extract_pages, extract_text_from_xhtml, join_body_text, ExtractionError};
use epub_reader::metadata::{format_metadata, group_metadata, MetadataField};
use epub_reader::progress::ProgressMap;
use epub_reader::session::{resume_page, App, Key, Overlay};
use epub_reader::text::{count_words, is_whitespace_char, join_strings, reading_time_seconds, visible_lines};

fn strings(items: &[&str]) -> Vec<String> {
    items.iter().map(|s| s.to_string()).collect()
}

fn three_pages() -> Vec<String> {
    strings(&["first page", "second page\nwith two lines", "one two three four five"])
}

fn session(pages: Vec<String>, saved: Option<u64>) -> App {
    App::new(pages, Vec::new(), 238, saved)
}

#[test]
fn end_to_end_new_document() {
    let path = "books/novel.epub".to_string();
    let mut progress = ProgressMap::new();
    let mut app = session(three_pages(), progress.get(&path));
    assert_eq!(app.page(), 0);
    app.handle_key_event(Key::Right);
    app.handle_key_event(Key::Right);
    assert_eq!(app.page(), 2);
    assert_eq!(app.scroll_offset(), 0);
    for _ in 0..3 {
        app.handle_key_event(Key::Down);
    }
    assert_eq!(app.scroll_offset(), 3);
    app.handle_key_event(Key::Char('s'));
    match app.overlay() {
        Overlay::ReadingTime(text) => assert_eq!(
            text,
            "Estimated reading time: 2 seconds (WPM: 238)\n\nPress <C> to close pop-up!"
        ),
        other => panic!("unexpected overlay {:?}", other),
    }
    app.handle_key_event(Key::Char('c'));
    assert!(matches!(app.overlay(), Overlay::Hidden));
    app.handle_key_event(Key::Char('q'));
    assert!(app.should_exit());
    app.record_progress(&mut progress, &path);
    assert_eq!(progress.get(&path), Some(2));
    let reloaded = ProgressMap::from_json(&progress.to_json());
    assert_eq!(reloaded.get(&path), Some(2));
}

#[test]
fn next_then_previous_returns_to_page() {
    let pages = strings(&["a", "b", "c", "d"]);
    let mut app = session(pages, Some(1));
    app.scroll_down();
    app.next_page();
    assert_eq!((app.page(), app.scroll_offset()), (2, 0));
    app.scroll_down();
    app.previous_page();
    assert_eq!((app.page(), app.scroll_offset()), (1, 0));
    assert_eq!(app.text(), "b");
}

#[test]
fn next_page_on_last_page_is_no_op() {
    let mut app = session(three_pages(), Some(2));
    app.scroll_down();
    app.scroll_down();
    app.next_page();
    assert_eq!((app.page(), app.scroll_offset()), (2, 2));
}

#[test]
fn previous_page_on_first_page_is_no_op() {
    let mut app = session(three_pages(), None);
    app.scroll_down();
    app.previous_page();
    assert_eq!((app.page(), app.scroll_offset()), (0, 1));
}

#[test]
fn scrolling() {
    let mut app = session(three_pages(), None);
    app.scroll_up();
    assert_eq!(app.scroll_offset(), 0);
    app.scroll_down();
    app.scroll_down();
    assert_eq!(app.scroll_offset(), 2);
    app.scroll_up();
    assert_eq!(app.scroll_offset(), 1);
    for _ in 0..100 {
        app.handle_key_event(Key::Down);
    }
    assert_eq!(app.scroll_offset(), 101);
}

#[test]
fn reading_time_rounds_up() {
    assert_eq!(reading_time_seconds(238, 238), 60);
    assert_eq!(reading_time_seconds(239, 238), 61);
    assert_eq!(reading_time_seconds(0, 238), 0);
    assert_eq!(reading_time_seconds(476, 238), 120);
    assert_eq!(reading_time_seconds(1, 1), 60);
}

#[test]
fn reading_time_of_a_full_minute_page() {
    let page = vec!["word"; 238].join(" ");
    let mut app = session(vec![page.clone(), format!("{} extra", page)], None);
    assert_eq!(app.calculate_reading_time(), 60);
    app.next_page();
    assert_eq!(app.calculate_reading_time(), 61);
    app.show_reading_time();
    assert!(matches!(app.overlay(), Overlay::ReadingTime(t) if t.starts_with("Estimated reading time: 61 seconds (WPM: 238)")));
    app.close_overlay();
    assert!(matches!(app.overlay(), Overlay::Hidden));
}

#[test]
fn words_are_whitespace_delimited() {
    assert_eq!(count_words(""), 0);
    assert_eq!(count_words("   \t\n "), 0);
    assert_eq!(count_words("one"), 1);
    assert_eq!(count_words("  one  two\tthree\nfour  "), 4);
    assert_eq!(count_words("a\u{3000}b\u{a0}c"), 3);
    assert!(is_whitespace_char('\u{2028}'));
    assert!(!is_whitespace_char('x'));
}

#[test]
fn progress_round_trip() {
    let empty = ProgressMap::new();
    let back = ProgressMap::from_json(&empty.to_json());
    assert_eq!(back.to_json(), "{}");
    let mut m = ProgressMap::new();
    m.set("a.epub".to_string(), 3);
    m.set("dir/b \"quoted\".epub".to_string(), 0);
    m.set("a.epub".to_string(), 7);
    let back = ProgressMap::from_json(&m.to_json());
    assert_eq!(back.get(&"a.epub".to_string()), Some(7));
    assert_eq!(back.get(&"dir/b \"quoted\".epub".to_string()), Some(0));
    assert_eq!(back.get(&"c.epub".to_string()), None);
    assert_eq!(back.to_json(), m.to_json());
}

#[test]
fn progress_json_format() {
    let mut m = ProgressMap::new();
    m.set("x.epub".to_string(), 12);
    assert_eq!(m.to_json(), "{\"x.epub\":12}");
    let loaded = ProgressMap::from_json("{\"book.epub\": 4, \"other.epub\": 0}");
    assert_eq!(loaded.get(&"book.epub".to_string()), Some(4));
    assert_eq!(loaded.get(&"other.epub".to_string()), Some(0));
}

#[test]
fn malformed_progress_is_empty() {
    for text in ["", "not json", "[1, 2]", "{\"a\": -1}", "{\"a\": \"x\"}"] {
        let m = ProgressMap::from_json(text);
        assert_eq!(m.to_json(), "{}");
    }
}

#[test]
fn resumed_page_is_clamped() {
    assert_eq!(resume_page(None, 3), 0);
    assert_eq!(resume_page(Some(1), 3), 1);
    assert_eq!(resume_page(Some(3), 3), 2);
    assert_eq!(resume_page(Some(40), 3), 2);
    let app = session(three_pages(), Some(9));
    assert_eq!(app.page(), 2);
}

#[test]
fn xhtml_body_text() {
    let page = "<html><head><title>T</title></head><body><p>Hello</p><p>World</p></body></html>";
    assert_eq!(extract_text_from_xhtml(page), "Hello\nWorld");
    assert_eq!(extract_text_from_xhtml("<p>just text</p>"), "just text");
}

#[test]
fn joining_text_runs() {
    let runs = vec![strings(&["a", "b"]), strings(&[]), strings(&["c"])];
    assert_eq!(join_body_text(&runs), "a\nbc");
    assert_eq!(join_strings(&strings(&["x", "y", "z"]), ", "), "x, y, z");
    assert_eq!(join_strings(&strings(&[]), ", "), "");
}

#[test]
fn extraction_keeps_page_order() {
    let markups: Vec<String> = (0..40)
        .map(|i| format!("<html><body><p>page {}</p></body></html>", i))
        .collect();
    let input: Vec<Option<String>> = markups.iter().cloned().map(Some).collect();
    let pages = extract_pages(&input).unwrap();
    assert_eq!(pages.len(), 40);
    for (i, page) in pages.iter().enumerate() {
        assert_eq!(page, &format!("page {}", i));
        assert_eq!(page, &extract_text_from_xhtml(&markups[i]));
    }
}

#[test]
fn extraction_fails_at_first_unreadable_page() {
    let input = vec![Some("<p>a</p>".to_string()), None, Some("<p>c</p>".to_string()), None];
    assert_eq!(extract_pages(&input), Err(ExtractionError::PageRead { page: 1 }));
    assert_eq!(extract_pages(&Vec::new()), Ok(Vec::new()));
}

#[test]
fn metadata_grouping_and_format() {
    let items = vec![
        ("title".to_string(), "A Book".to_string()),
        ("creator".to_string(), "Ann".to_string()),
        ("title".to_string(), "Subtitle".to_string()),
        ("creator".to_string(), "Bob".to_string()),
        ("language".to_string(), "en".to_string()),
    ];
    let fields = group_metadata(&items);
    assert_eq!(fields.len(), 3);
    assert_eq!(fields[0].name, "title");
    assert_eq!(fields[0].values, strings(&["A Book", "Subtitle"]));
    assert_eq!(fields[1].values, strings(&["Ann", "Bob"]));
    assert_eq!(
        format_metadata(&fields),
        "title: A Book, Subtitle\ncreator: Ann, Bob\nlanguage: en\n\nPress <C> to close pop-up!"
    );
    assert_eq!(format_metadata(&Vec::new()), "\nPress <C> to close pop-up!");
    let mut app = App::new(three_pages(), fields, 200, None);
    app.handle_key_event(Key::Char('m'));
    assert!(matches!(app.overlay(), Overlay::Metadata(t) if t.starts_with("title: A Book, Subtitle\n")));
    app.handle_key_event(Key::Char('s'));
    assert!(matches!(app.overlay(), Overlay::ReadingTime(_)));
    app.handle_key_event(Key::Char('c'));
    assert!(matches!(app.overlay(), Overlay::Hidden));
}

#[test]
fn metadata_field_construction() {
    let field = MetadataField { name: "k".to_string(), values: strings(&["v"]) };
    assert_eq!(format_metadata(&vec![field]), "k: v\n\nPress <C> to close pop-up!");
}

#[test]
fn other_keys_do_nothing() {
    let mut app = session(three_pages(), Some(1));
    app.handle_key_event(Key::Other);
    app.handle_key_event(Key::Char('x'));
    assert_eq!((app.page(), app.scroll_offset(), app.should_exit()), (1, 0, false));
    app.handle_key_event(Key::Left);
    assert_eq!(app.page(), 0);
    assert_eq!(app.page_count(), 3);
    assert_eq!(app.words_per_minute(), 238);
}

#[test]
fn popup_rectangle_is_centred() {
    let r = centered_rect(60, 20, Area { x: 0, y: 0, width: 100, height: 50 });
    assert_eq!(r, Area { x: 20, y: 20, width: 60, height: 10 });
    let r = centered_rect(70, 60, Area { x: 0, y: 0, width: 65535, height: 7 });
    assert_eq!(r, Area { x: 9830, y: 1, width: 45874, height: 4 });
}

#[test]
fn viewport_lines() {
    let text = "l0\nl1\r\nl2\n\nl4\n";
    assert_eq!(visible_lines(text, 0, 2), strings(&["l0", "l1"]));
    assert_eq!(visible_lines(text, 1, 10), strings(&["l1", "l2", "", "l4"]));
    assert_eq!(visible_lines(text, 5, 3), strings(&[]));
    assert_eq!(visible_lines(text, 500, 3), strings(&[]));
    assert_eq!(visible_lines("", 0, 3), strings(&[]));
    assert_eq!(visible_lines("end\r", 0, 3), strings(&["end\r"]));
}

#[test]
fn scrolling_past_the_end_shows_nothing() {
    let mut app = session(strings(&["a\nb\nc"]), None);
    assert_eq!(app.visible_lines(2), strings(&["a", "b"]));
    app.scroll_down();
    app.scroll_down();
    assert_eq!(app.visible_lines(2), strings(&["c"]));
    app.scroll_down();
    app.scroll_down();
    assert_eq!(app.visible_lines(2), strings(&[]));
    app.scroll_up();
    app.scroll_up();
    assert_eq!(app.visible_lines(2), strings(&["c"]));
}
