use tree_sitter_bridge::edit::{fits, splice};
use tree_sitter_bridge::highlight::flatten;
use tree_sitter_bridge::session::kind_entry;
use tree_sitter_bridge::{DiffRange, Highlight, SyntaxNode, TSBridge, TSBridgeError, TSLang};

fn json_session() -> TSBridge {
    let mut bridge = TSBridge::new();
    bridge.set_language(TSLang::Json).unwrap();
    bridge
}

fn range(start: i32, old_end: i32, new_end: i32) -> DiffRange {
    DiffRange { start, old_end, new_end }
}

fn is_language_error(e: &TSBridgeError) -> bool {
    matches!(e, TSBridgeError::LanguageError { .. })
}

#[test]
fn test_all_languages() {
    let mut bridge = TSBridge::new();
    for lang in TSLang::all() {
        match bridge.set_language(lang) {
            Ok(_) => println!("Passed: {:?}", lang),
            Err(e) => panic!("Failed: {:?}. Error: {:?}", lang, e),
        }
    }
}

#[test]
fn every_language_has_kinds() {
    for lang in TSLang::all() {
        let mut bridge = TSBridge::new();
        bridge.set_language(lang).unwrap();
        let kinds = bridge.get_kinds_for_selected_language().unwrap();
        assert!(!kinds.is_empty(), "{:?}", lang);
    }
}

#[test]
fn catalog_lists_each_tag_once() {
    let all = TSLang::all();
    assert_eq!(all.len(), 31);
    for (i, a) in all.iter().enumerate() {
        for b in all.iter().skip(i + 1) {
            assert_ne!(a, b);
        }
    }
    assert_eq!(all[0], TSLang::ASM);
    assert_eq!(all[30], TSLang::MD);
}

#[test]
fn json_kinds_name_the_braces() {
    let bridge = json_session();
    let kinds = bridge.get_kinds_for_selected_language().unwrap();
    assert!(kinds.iter().any(|k| k == "{"));
    assert!(kinds.iter().any(|k| k == "object"));
}

#[test]
fn previous_parse_is_the_last_result() {
    let mut bridge = json_session();
    let h = bridge.parse_everything("{\"a\": [1, 2]}").unwrap();
    assert_eq!(bridge.get_previous_parse().unwrap(), h);
}

#[test]
fn previous_parse_is_empty_at_first() {
    let bridge = json_session();
    assert!(bridge.get_previous_parse().unwrap().is_empty());
}

#[test]
fn root_spans_the_document() {
    let mut bridge = json_session();
    let text = "[1, {\"b\": null}]";
    let h = bridge.parse_everything(text).unwrap();
    assert_eq!(h[0].start, 0);
    assert_eq!(h[0].end, text.len() as i32);
}

#[test]
fn ranges_are_ordered_and_nested() {
    let mut bridge = json_session();
    let h = bridge.parse_everything("{\"k\": [true, false, {\"x\": 1}]}").unwrap();
    for x in &h {
        assert!(x.start <= x.end);
        assert!(x.start >= h[0].start && x.end <= h[0].end);
    }
    // Every highlight after the first lies inside some earlier one, its parent.
    for i in 1..h.len() {
        assert!(h[..i].iter().any(|p| p.start <= h[i].start && h[i].end <= p.end));
    }
}

#[test]
fn empty_edit_matches_full_parse() {
    let mut bridge = json_session();
    let text = "{\"a\": [1, 2, 3]}";
    let full = bridge.parse_everything(text).unwrap();
    let edited = bridge.parse_changes("", range(0, 0, 0)).unwrap();
    assert_eq!(edited, full);
    assert_eq!(bridge.current_text(), text.as_bytes().to_vec());
}

#[test]
fn json_braces_scenario() {
    let mut bridge = json_session();
    let h = bridge.parse_everything("{}").unwrap();
    assert_eq!((h[0].start, h[0].end), (0, 2));
    assert!(h.iter().any(|x| x.start == 0 && x.end == 1));
    assert!(h.iter().any(|x| x.start == 1 && x.end == 2));
    assert_eq!(h.len(), 4);
}

#[test]
fn json_insert_space_scenario() {
    let mut bridge = json_session();
    bridge.parse_everything("{}").unwrap();
    let h = bridge.parse_changes(" ", range(1, 1, 2)).unwrap();
    assert_eq!(bridge.current_text(), b"{ }".to_vec());
    assert_eq!((h[0].start, h[0].end), (0, 3));
    assert!(h.iter().any(|x| x.start == 2 && x.end == 3));
    assert_eq!(bridge.get_previous_parse().unwrap(), h);
}

#[test]
fn edit_before_any_parse_is_a_cold_parse() {
    let mut bridge = json_session();
    bridge.set_initial_string("[1]").unwrap();
    let h = bridge.parse_changes(", 2", range(2, 2, 5)).unwrap();
    assert_eq!(bridge.current_text(), b"[1, 2]".to_vec());
    assert_eq!((h[0].start, h[0].end), (0, 6));
}

#[test]
fn calls_without_language_fail_with_language_error() {
    let mut bridge = TSBridge::new();
    assert!(is_language_error(&bridge.get_kinds_for_selected_language().unwrap_err()));
    assert!(is_language_error(&bridge.parse_everything("{}").unwrap_err()));
    assert!(is_language_error(&bridge.parse_changes("x", range(0, 0, 1)).unwrap_err()));
    assert!(bridge.current_text().is_empty());
}

#[test]
fn edit_outside_text_is_other_error() {
    let mut bridge = json_session();
    bridge.parse_everything("{}").unwrap();
    let before = bridge.get_previous_parse().unwrap();
    for r in [range(0, 3, 0), range(2, 1, 2), range(-1, 0, 0), range(0, 0, -1)] {
        match bridge.parse_changes("x", r) {
            Err(TSBridgeError::OtherError { .. }) => {}
            other => panic!("{:?}", other),
        }
    }
    assert_eq!(bridge.current_text(), b"{}".to_vec());
    assert_eq!(bridge.get_previous_parse().unwrap(), before);
}

#[test]
fn set_initial_string_replaces_text_only() {
    let mut bridge = json_session();
    bridge.parse_everything("[]").unwrap();
    let before = bridge.get_previous_parse().unwrap();
    bridge.set_initial_string("héllo").unwrap();
    assert_eq!(bridge.current_text(), "héllo".as_bytes().to_vec());
    assert_eq!(bridge.get_previous_parse().unwrap(), before);
}

#[test]
fn switching_language_parses_with_new_grammar() {
    let mut bridge = json_session();
    let json = bridge.parse_everything("{}").unwrap();
    bridge.set_language(TSLang::Rust).unwrap();
    let rust = bridge.parse_everything("fn main() {}").unwrap();
    assert_eq!((rust[0].start, rust[0].end), (0, 12));
    assert_ne!(json[0].kind, rust[0].kind);
}

#[test]
fn error_messages() {
    let e = TSBridgeError::OtherError { error_message: "bad".to_string() };
    assert_eq!(e.message(), "bad");
    assert_eq!(TSBridgeError::TreeCreationError.message(), "tree creation failed");
    let bridge = TSBridge::new();
    match bridge.get_kinds_for_selected_language() {
        Err(e) => assert_eq!(e.message(), "no language selected"),
        Ok(_) => panic!("expected an error"),
    }
}

#[test]
fn kind_entry_uses_empty_for_missing_name() {
    assert_eq!(kind_entry(Some("object")), "object");
    assert_eq!(kind_entry(None), "");
}

#[test]
fn splice_replaces_byte_range() {
    let text = b"hello world".to_vec();
    assert_eq!(splice(&text, 6, 11, b"there"), b"hello there".to_vec());
    assert_eq!(splice(&text, 0, 0, b""), text);
    assert_eq!(splice(&text, 5, 5, b","), b"hello, world".to_vec());
    assert_eq!(splice(&text, 0, 11, b""), Vec::<u8>::new());
}

#[test]
fn fits_checks_the_range() {
    assert!(fits(range(0, 0, 0), 0));
    assert!(fits(range(1, 3, 2), 3));
    assert!(!fits(range(1, 4, 2), 3));
    assert!(!fits(range(2, 1, 2), 3));
    assert!(!fits(range(-1, 1, 2), 3));
    assert!(!fits(range(0, 1, -2), 3));
}

#[test]
fn flatten_is_preorder() {
    let node = |start: usize, end: usize, kind: u16, children: Vec<usize>| SyntaxNode {
        start,
        end,
        kind,
        children,
    };
    // 0 -> [1, 2], 1 -> [3], 2 -> []
    let nodes = vec![
        node(0, 10, 1, vec![1, 2]),
        node(0, 4, 2, vec![3]),
        node(5, 10, 3, vec![]),
        node(1, 2, 4, vec![]),
    ];
    let h = flatten(&nodes);
    let kinds: Vec<u16> = h.iter().map(|x| x.kind).collect();
    assert_eq!(kinds, vec![1, 2, 4, 3]);
    assert_eq!(h[0], Highlight { start: 0, end: 10, kind: 1 });
    assert_eq!(h[2], Highlight { start: 1, end: 2, kind: 4 });
    assert!(flatten(&Vec::new()).is_empty());
}

#[test]
fn root_starts_after_leading_whitespace() {
    let mut bridge = json_session();
    let h = bridge.parse_everything(" {}").unwrap();
    assert_eq!(h[0].start, 1);
}

#[test]
fn kinds_follow_last_selection() {
    let mut bridge = json_session();
    let json = bridge.get_kinds_for_selected_language().unwrap();
    bridge.set_language(TSLang::Rust).unwrap();
    let rust = bridge.get_kinds_for_selected_language().unwrap();
    assert!(rust.iter().any(|k| k == "function_item"));
    assert!(!json.iter().any(|k| k == "function_item"));
    assert_eq!(bridge.get_kinds_for_selected_language().unwrap(), rust);
    assert_eq!(json[0], "end");
}
