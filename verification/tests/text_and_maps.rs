use forge_agents::events::doc_sync_events::{
    clone_quality, DocRelationship, DocSourceFile, DocTargetFile, DocumentationMap,
    QualityMetrics,
};
use forge_agents::str_map::StrMap;
use forge_agents::text::{
    chars_of, contains, decimal_text, ends_with, join2, join3, pattern_matches, replace_all,
    skip_chars, starts_with, str_eq, trim_end_matches,
};

#[test]
fn numbers_are_written_in_decimal() {
    assert_eq!(decimal_text(0), "0");
    assert_eq!(decimal_text(7), "7");
    assert_eq!(decimal_text(10), "10");
    assert_eq!(decimal_text(1234567890), "1234567890");
    assert_eq!(decimal_text(u64::MAX), "18446744073709551615");
}

#[test]
fn texts_are_compared_and_searched_by_character() {
    assert!(str_eq("", ""));
    assert!(str_eq("päth", "päth"));
    assert!(!str_eq("path", "pat"));
    assert!(!str_eq("path", "pith"));
    assert!(starts_with("create_page", "create"));
    assert!(starts_with("create", "create"));
    assert!(starts_with("x", ""));
    assert!(!starts_with("creat", "create"));
    assert!(ends_with("state.json", ".json"));
    assert!(ends_with("x", ""));
    assert!(!ends_with("json", ".json"));
    assert!(contains("a/../b", ".."));
    assert!(contains("..", ".."));
    assert!(contains("abc", ""));
    assert!(!contains("a/./b", ".."));
    assert!(!contains(".", ".."));
    assert!(contains("naïve..é", ".."));
    assert_eq!(chars_of("aé"), vec!['a', 'é']);
    assert_eq!(join2("a", "b"), "ab");
    assert_eq!(join3("a", "", "c"), "ac");
    assert_eq!(skip_chars("map_évent", 4), "évent");
    assert_eq!(skip_chars("abc", 3), "");
    assert_eq!(skip_chars("abc", 4), "");
    assert_eq!(skip_chars("abc", 0), "abc");
    assert_eq!(trim_end_matches("a.json.json", ".json"), "a");
    assert_eq!(trim_end_matches("a.json.txt", ".json"), "a.json.txt");
    assert_eq!(trim_end_matches("aaa", "a"), "");
    assert_eq!(trim_end_matches("abc", ""), "abc");
    assert!(pattern_matches("docs-*", "docs-x"));
    assert!(!pattern_matches("docs-*", "doc"));
}

#[test]
fn map_keeps_one_value_per_key_in_insertion_order() {
    let mut map: StrMap<u32> = StrMap::new();
    assert!(map.is_empty());
    assert_eq!(map.len(), 0);
    assert_eq!(map.insert("b".to_string(), 2), None);
    assert_eq!(map.insert("a".to_string(), 1), None);
    assert_eq!(map.insert("b".to_string(), 20), Some(2));
    assert_eq!(map.len(), 2);
    assert!(!map.is_empty());
    assert_eq!(map.key_at(0), "b");
    assert_eq!(map.key_at(1), "a");
    assert_eq!(*map.value_at(0), 20);
    assert_eq!(*map.value_at(1), 1);
    assert_eq!(map.get("b"), Some(&20));
    assert_eq!(map.get("c"), None);
    assert!(map.contains_key("a"));
    assert!(!map.contains_key("A"));
    assert_eq!(map.remove("b"), Some(20));
    assert_eq!(map.remove("b"), None);
    assert_eq!(map.len(), 1);
    assert_eq!(map.key_at(0), "a");
    map.insert("b".to_string(), 3);
    assert_eq!(map.key_at(1), "b");
    let copy = map.clone();
    map.clear();
    assert!(map.is_empty());
    assert_eq!(copy.len(), 2);
    assert_eq!(copy.get("a"), Some(&1));
    assert_eq!(copy.get("b"), Some(&3));
}

#[test]
fn text_map_sets_and_duplicates() {
    let mut map: StrMap<String> = StrMap::new();
    map.set("k", "v1");
    map.set("k", "v2");
    map.set("other", "x");
    let copy = map.duplicate();
    map.set("k", "v3");
    assert_eq!(copy.get("k"), Some(&"v2".to_string()));
    assert_eq!(copy.get("other"), Some(&"x".to_string()));
    assert_eq!(copy.len(), 2);
    assert_eq!(map.get("k"), Some(&"v3".to_string()));
    let mut flags: StrMap<bool> = StrMap::new();
    flags.insert("f".to_string(), true);
    assert_eq!(flags.duplicate().get("f"), Some(&true));
}

#[test]
fn blackboard_is_copied_in_depth() {
    let mut map = DocumentationMap::default();
    let mut notes = StrMap::new();
    notes.set("lang", "en");
    map.source_files.insert(
        "a.md".to_string(),
        DocSourceFile {
            path: "a.md".to_string(),
            content_hash: "h1".to_string(),
            metadata: notes,
            last_updated: 3,
        },
    );
    map.target_files.insert(
        "a.html".to_string(),
        DocTargetFile {
            path: "a.html".to_string(),
            content_hash: "h2".to_string(),
            file_type: "markdown".to_string(),
            metadata: StrMap::new(),
            last_updated: 4,
        },
    );
    map.relationships.push(DocRelationship {
        source_path: "a.md".to_string(),
        target_path: "a.html".to_string(),
        relationship_type: "primary".to_string(),
        metadata: StrMap::new(),
    });
    map.metadata.set("site", "docs");
    let copy = map.clone();
    map.metadata.set("site", "changed");
    map.relationships.clear();
    assert_eq!(copy.metadata.get("site"), Some(&"docs".to_string()));
    assert_eq!(copy.relationships.len(), 1);
    assert_eq!(copy.relationships[0].relationship_type, "primary");
    let source = copy.source_files.get("a.md").unwrap();
    assert_eq!(source.content_hash, "h1");
    assert_eq!(source.last_updated, 3);
    assert_eq!(source.metadata.get("lang"), Some(&"en".to_string()));
    let target = copy.target_files.get("a.html").unwrap();
    assert_eq!(target.file_type, "markdown");
    assert_eq!(target.last_updated, 4);
}

#[test]
fn score_cards_are_copied() {
    let card = QualityMetrics {
        content_quality: 1,
        structure_quality: 2,
        ui_quality: 3,
        css_quality: 4,
        technical_quality: 5,
        overall_quality: 6,
        metadata: StrMap::new(),
    };
    let copy = clone_quality(&Some(card)).unwrap();
    assert_eq!(
        (
            copy.content_quality,
            copy.structure_quality,
            copy.ui_quality,
            copy.css_quality,
            copy.technical_quality,
            copy.overall_quality
        ),
        (1, 2, 3, 4, 5, 6)
    );
    assert!(clone_quality(&None).is_none());
}

#[test]
fn occurrences_are_replaced_from_the_left() {
    assert_eq!(replace_all("a{{ x }}b{{ x }}", "{{ x }}", "1"), "a1b1");
    assert_eq!(replace_all("aaa", "aa", "b"), "ba");
    assert_eq!(replace_all("aaaa", "aa", "b"), "bb");
    assert_eq!(replace_all("abc", "abc", ""), "");
    assert_eq!(replace_all("abc", "abcd", "x"), "abc");
    assert_eq!(replace_all("abc", "x", "y"), "abc");
    assert_eq!(replace_all("", "x", "y"), "");
    assert_eq!(replace_all("abc", "", "y"), "abc");
    assert_eq!(replace_all("héllo wörld", "ö", "oe"), "héllo woerld");
    assert_eq!(replace_all("x", "x", "xx"), "xx");
    assert_eq!("a{{ x }}b{{ x }}".replace("{{ x }}", "1"), replace_all("a{{ x }}b{{ x }}", "{{ x }}", "1"));
    assert_eq!("aaaa".replace("aa", "b"), replace_all("aaaa", "aa", "b"));
}
