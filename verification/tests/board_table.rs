use chromebook_audio::board_generations::{board_generations_path, board_table_from_entries};
use chromebook_audio::get_board_generations;

#[test]
fn lookup_of_listed_and_unlisted_boards() {
    let table = get_board_generations(r#"{"frostflow": "apl", "atlas": "kbl", "grunt": "stoney"}"#)
        .expect("a JSON object of strings parses");
    assert_eq!(table.get("frostflow"), Some("apl".to_string()));
    assert_eq!(table.get("atlas"), Some("kbl".to_string()));
    assert_eq!(table.get("grunt"), Some("stoney".to_string()));
    assert_eq!(table.get("nocturne"), None);
    assert_eq!(table.get(""), None);
    assert_eq!(table.get("Frostflow"), None);
}

#[test]
fn empty_table() {
    let table = get_board_generations("{}").expect("an empty object parses");
    assert_eq!(table.get("frostflow"), None);
}

#[test]
fn later_duplicate_key_wins() {
    let table = get_board_generations(r#"{"a": "x", "a": "y"}"#).expect("parses");
    assert_eq!(table.get("a"), Some("y".to_string()));
}

#[test]
fn malformed_tables_are_refused() {
    assert!(get_board_generations("").is_none());
    assert!(get_board_generations("{").is_none());
    assert!(get_board_generations(r#"{"a": 1}"#).is_none());
    assert!(get_board_generations(r#"["a", "b"]"#).is_none());
    assert!(get_board_generations(r#"{"a": "x"} trailing"#).is_none());
}

#[test]
fn table_path() {
    assert_eq!(
        board_generations_path("/usr/lib/extensions/chromebook-audio"),
        "/usr/lib/extensions/chromebook-audio/usr/lib/chromebook-audio/conf/board-generations.json"
    );
}

#[test]
fn table_from_entries() {
    let table = board_table_from_entries(vec![
        ("eve".to_string(), "kbl".to_string()),
        ("dedede".to_string(), "jsl".to_string()),
    ]);
    assert_eq!(table.get("dedede"), Some("jsl".to_string()));
    assert_eq!(table.get("eve"), Some("kbl".to_string()));
    assert_eq!(table.get("volteer"), None);
}
