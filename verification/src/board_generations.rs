use std::collections::HashMap;

use vstd::prelude::*;

use crate::text::{join2, str_equal};

verus! {

/// The map from board name to board generation that `serde_json::from_str` reads out of
/// `text` when asked for a `HashMap<String, String>`, or `None` where it returns an error.
pub uninterp spec fn json_string_map(text: Seq<char>) -> Option<Map<Seq<char>, Seq<char>>>;

/// No two entries share a key.
pub open spec fn keys_unique(e: Seq<(String, String)>) -> bool {
    forall|i: int, j: int| 0 <= i < j < e.len() ==> #[trigger] e[i].0@ != #[trigger] e[j].0@
}

/// Whether some entry has key `k`.
pub open spec fn has_key(e: Seq<(String, String)>, k: Seq<char>) -> bool {
    exists|i: int| 0 <= i < e.len() && #[trigger] e[i].0@ == k
}

/// The map that a list of (key, value) entries describes.
pub open spec fn entries_map(e: Seq<(String, String)>) -> Map<Seq<char>, Seq<char>> {
    Map::new(
        |k: Seq<char>| has_key(e, k),
        |k: Seq<char>| e[choose|i: int| 0 <= i < e.len() && #[trigger] e[i].0@ == k].1@,
    )
}

/// Calls `serde_json::from_str::<HashMap<String, String>>` on `text`. Claims that it fails
/// exactly where `json_string_map` is `None`, and that otherwise the entries it hands out
/// (in the map's iteration order, which is left open) have distinct keys and describe
/// `json_string_map(text)`.
#[verifier::external_body]
fn parse_json_string_map(text: &str) -> (res: Option<Vec<(String, String)>>)
    ensures
        res is Some <==> json_string_map(text@) is Some,
        res matches Some(v) ==> keys_unique(v@) && entries_map(v@) == json_string_map(
            text@,
        )->0,
{
    match serde_json::from_str::<HashMap<String, String>>(text) {
        Ok(m) => Some(m.into_iter().collect()),
        Err(_) => None,
    }
}

/// The table that maps a Chromebook's board name to its board generation.
pub struct BoardGenerations {
    entries: Vec<(String, String)>,
}

impl BoardGenerations {
    #[verifier::type_invariant]
    spec fn well_formed(self) -> bool {
        keys_unique(self.entries@)
    }
}

impl View for BoardGenerations {
    type V = Map<Seq<char>, Seq<char>>;

    closed spec fn view(&self) -> Map<Seq<char>, Seq<char>> {
        entries_map(self.entries@)
    }
}

/// Reads the board table out of the text of a JSON object whose values are strings.
/// `None` where the text is not such an object.
pub fn get_board_generations(json: &str) -> (res: Option<BoardGenerations>)
    ensures
        res is Some <==> json_string_map(json@) is Some,
        res matches Some(t) ==> t@ == json_string_map(json@)->0,
{
    match parse_json_string_map(json) {
        Some(entries) => Some(board_table_from_entries(entries)),
        None => None,
    }
}

/// The table that lists, for each entry, its board name and then its generation. The board
/// names must be distinct.
pub fn board_table_from_entries(entries: Vec<(String, String)>) -> (t: BoardGenerations)
    requires
        keys_unique(entries@),
    ensures
        t@ == entries_map(entries@),
{
    BoardGenerations { entries }
}

impl BoardGenerations {
    /// The generation of board `board_name`, or `None` where the table does not list it.
    pub fn get(&self, board_name: &str) -> (res: Option<String>)
        ensures
            res is Some <==> self@.contains_key(board_name@),
            res matches Some(g) ==> g@ == self@[board_name@],
    {
        proof {
            use_type_invariant(self);
        }
        let n: usize = self.entries.len();
        let mut i: usize = 0;
        while i < n
            invariant
                n == self.entries@.len(),
                i <= n,
                keys_unique(self.entries@),
                forall|j: int| 0 <= j < i ==> #[trigger] self.entries@[j].0@ != board_name@,
            decreases n - i,
        {
            if str_equal(self.entries[i].0.as_str(), board_name) {
                proof {
                    let e = self.entries@;
                    assert(has_key(e, board_name@));
                    let c: int = choose|c: int| 0 <= c < e.len() && #[trigger] e[c].0@ == board_name@;
                    if c < i {
                        assert(e[c].0@ != board_name@);
                    } else if c > i {
                        assert(e[i as int].0@ != e[c].0@);
                    }
                }
                return Some(self.entries[i].1.clone());
            }
            i = i + 1;
        }
        proof {
            let e = self.entries@;
            if has_key(e, board_name@) {
                let c: int = choose|c: int| 0 <= c < e.len() && #[trigger] e[c].0@ == board_name@;
                assert(e[c].0@ != board_name@);
            }
        }
        None
    }
}

/// Where the board table is installed below the extension directory `extension_dir`.
pub fn board_generations_path(extension_dir: &str) -> (r: String)
    ensures
        r@ == extension_dir@ + "/usr/lib/chromebook-audio/conf/board-generations.json"@,
{
    join2(extension_dir, "/usr/lib/chromebook-audio/conf/board-generations.json")
}

} // verus!
