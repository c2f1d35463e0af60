//! Lists of key and text pairs, and the maps they stand for.
//!
//! The table leaves and enters the store as such lists: the entries that a
//! save writes, and the entries that a document is read as. This module
//! decides whether two such lists hold the same entries.

use vstd::prelude::*;

verus! {

/// The map that a list of pairs stands for; of two pairs with one key the
/// later counts.
pub open spec fn pairs_map(pairs: Seq<(String, String)>) -> Map<Seq<char>, Seq<char>>
    decreases pairs.len(),
{
    if pairs.len() == 0 {
        Map::empty()
    } else {
        pairs_map(pairs.drop_last()).insert(pairs.last().0@, pairs.last().1@)
    }
}

/// Whether no key occurs twice in a list of pairs.
pub open spec fn distinct_keys(pairs: Seq<(String, String)>) -> bool {
    forall|i: int, j: int|
        0 <= i < j < pairs.len() ==> (#[trigger] pairs[i]).0@ != (#[trigger] pairs[j]).0@
}

/// The text of an optional string.
pub open spec fn text_of(text: Option<String>) -> Option<Seq<char>> {
    match text {
        Some(s) => Some(s@),
        None => None,
    }
}

/// Whether a list of entries, each a key with its text if it has one, lists
/// a table: every entry of the list is in the table and every key of the
/// table is in the list.
pub open spec fn lists(
    entries: Seq<(String, Option<String>)>,
    table: Map<Seq<char>, Option<Seq<char>>>,
) -> bool {
    &&& forall|i: int|
        0 <= i < entries.len() ==> table.contains_key((#[trigger] entries[i]).0@) && table[entries[i].0@]
            == text_of(entries[i].1)
    &&& forall|k: Seq<char>|
        table.contains_key(k) ==> exists|i: int|
            0 <= i < entries.len() && (#[trigger] entries[i]).0@ == k
}

/// A map of texts as a table in which every entry has its text.
pub open spec fn as_table(texts: Map<Seq<char>, Seq<char>>) -> Map<Seq<char>, Option<Seq<char>>> {
    Map::new(|k: Seq<char>| texts.contains_key(k), |k: Seq<char>| Some(texts[k]))
}

/// Whether a list of pairs holds the given key with the given text.
pub open spec fn holds_pair(pairs: Seq<(String, String)>, key: Seq<char>, text: Option<Seq<char>>) -> bool {
    exists|j: int|
        0 <= j < pairs.len() && (#[trigger] pairs[j]).0@ == key && text == Some(pairs[j].1@)
}

/// Whether a list of entries holds the given key.
pub open spec fn holds_key(entries: Seq<(String, Option<String>)>, key: Seq<char>) -> bool {
    exists|i: int| 0 <= i < entries.len() && (#[trigger] entries[i]).0@ == key
}

/// Whether two lists hold the same entries: every entry of the second has
/// a text and stands in the first, and every key of the first is in the
/// second.
pub open spec fn same_entries(
    pairs: Seq<(String, String)>,
    entries: Seq<(String, Option<String>)>,
) -> bool {
    &&& forall|i: int|
        0 <= i < entries.len() ==> #[trigger] holds_pair(
            pairs,
            entries[i].0@,
            text_of(entries[i].1),
        )
    &&& forall|j: int| 0 <= j < pairs.len() ==> #[trigger] holds_key(entries, pairs[j].0@)
}

/// The keys of the map that a list stands for are the keys in the list,
/// and where no key occurs twice each pair's text stands under its key.
pub proof fn pairs_map_holds_the_pairs(pairs: Seq<(String, String)>)
    ensures
        forall|k: Seq<char>|
            pairs_map(pairs).contains_key(k) <==> exists|j: int|
                0 <= j < pairs.len() && (#[trigger] pairs[j]).0@ == k,
        distinct_keys(pairs) ==> forall|j: int|
            0 <= j < pairs.len() ==> pairs_map(pairs)[(#[trigger] pairs[j]).0@] == pairs[j].1@,
    decreases pairs.len(),
{
    if pairs.len() > 0 {
        let front = pairs.drop_last();
        pairs_map_holds_the_pairs(front);
        assert(forall|j: int| 0 <= j < front.len() ==> front[j] == pairs[j]);
        assert(pairs_map(pairs) == pairs_map(front).insert(pairs.last().0@, pairs.last().1@));
        assert forall|k: Seq<char>| pairs_map(pairs).contains_key(k) implies exists|j: int|
            0 <= j < pairs.len() && (#[trigger] pairs[j]).0@ == k by {
            if k == pairs.last().0@ {
                assert(pairs[pairs.len() - 1].0@ == k);
            } else {
                assert(pairs_map(front).contains_key(k));
                let j = choose|j: int| 0 <= j < front.len() && (#[trigger] front[j]).0@ == k;
                assert(pairs[j].0@ == k);
            }
        }
        assert forall|k: Seq<char>|
            (exists|j: int| 0 <= j < pairs.len() && (#[trigger] pairs[j]).0@ == k) implies pairs_map(
            pairs,
        ).contains_key(k) by {
            let j = choose|j: int| 0 <= j < pairs.len() && (#[trigger] pairs[j]).0@ == k;
            if j < front.len() {
                assert(front[j].0@ == k);
            }
        }
        if distinct_keys(pairs) {
            assert(distinct_keys(front));
            assert forall|j: int| 0 <= j < pairs.len() implies pairs_map(pairs)[(#[trigger] pairs[
                j
            ]).0@] == pairs[j].1@ by {
                if j < front.len() {
                    assert(front[j].0@ == pairs[j].0@);
                    assert(pairs[j].0@ != pairs[pairs.len() - 1].0@);
                }
            }
        }
    }
}

/// Two lists hold the same entries exactly when the table that the second
/// lists is the map that the first stands for.
pub proof fn same_entries_is_equality(
    pairs: Seq<(String, String)>,
    entries: Seq<(String, Option<String>)>,
    table: Map<Seq<char>, Option<Seq<char>>>,
)
    requires
        distinct_keys(pairs),
        lists(entries, table),
    ensures
        same_entries(pairs, entries) <==> table == as_table(pairs_map(pairs)),
{
    pairs_map_holds_the_pairs(pairs);
    let wanted = as_table(pairs_map(pairs));
    if same_entries(pairs, entries) {
        assert forall|k: Seq<char>| table.contains_key(k) implies wanted.contains_key(k)
            && table[k] == wanted[k] by {
            let i = choose|i: int| 0 <= i < entries.len() && (#[trigger] entries[i]).0@ == k;
            assert(holds_pair(pairs, entries[i].0@, text_of(entries[i].1)));
            let j = choose|j: int|
                0 <= j < pairs.len() && (#[trigger] pairs[j]).0@ == entries[i].0@ && text_of(
                    entries[i].1,
                ) == Some(pairs[j].1@);
            assert(pairs[j].0@ == k);
        }
        assert forall|k: Seq<char>| wanted.contains_key(k) implies table.contains_key(k) by {
            let j = choose|j: int| 0 <= j < pairs.len() && (#[trigger] pairs[j]).0@ == k;
            assert(holds_key(entries, pairs[j].0@));
            let i = choose|i: int|
                0 <= i < entries.len() && (#[trigger] entries[i]).0@ == pairs[j].0@;
            assert(table.contains_key(entries[i].0@));
        }
        assert(table =~= wanted);
    }
    if table == wanted {
        assert forall|i: int| 0 <= i < entries.len() implies #[trigger] holds_pair(
            pairs,
            entries[i].0@,
            text_of(entries[i].1),
        ) by {
            let k = entries[i].0@;
            assert(table.contains_key(k));
            assert(pairs_map(pairs).contains_key(k));
            let j = choose|j: int| 0 <= j < pairs.len() && (#[trigger] pairs[j]).0@ == k;
            assert(pairs_map(pairs)[pairs[j].0@] == pairs[j].1@);
            assert(wanted[k] == Some(pairs[j].1@));
        }
        assert forall|j: int| 0 <= j < pairs.len() implies #[trigger] holds_key(
            entries,
            pairs[j].0@,
        ) by {
            let k = pairs[j].0@;
            assert(pairs_map(pairs).contains_key(k));
            assert(table.contains_key(k));
        }
    }
}

/// The position of the first pair with the given key.
pub fn find_pair(pairs: &Vec<(String, String)>, key: &String) -> (r: Option<usize>)
    ensures
        r is Some ==> r.unwrap() < pairs@.len() && pairs@[r.unwrap() as int].0@ == key@,
        r is Some ==> forall|j: int| 0 <= j < r.unwrap() ==> (#[trigger] pairs@[j]).0@ != key@,
        r is None ==> forall|j: int| 0 <= j < pairs@.len() ==> (#[trigger] pairs@[j]).0@ != key@,
{
    let mut j: usize = 0;
    while j < pairs.len()
        invariant
            j <= pairs@.len(),
            forall|h: int| 0 <= h < j ==> (#[trigger] pairs@[h]).0@ != key@,
        decreases pairs@.len() - j,
    {
        if pairs[j].0 == *key {
            return Some(j);
        }
        j += 1;
    }
    None
}

/// Whether some entry has the given key.
pub fn has_entry(entries: &Vec<(String, Option<String>)>, key: &String) -> (r: bool)
    ensures
        r == holds_key(entries@, key@),
{
    let mut i: usize = 0;
    while i < entries.len()
        invariant
            i <= entries@.len(),
            forall|h: int| 0 <= h < i ==> (#[trigger] entries@[h]).0@ != key@,
        decreases entries@.len() - i,
    {
        if entries[i].0 == *key {
            return true;
        }
        i += 1;
    }
    false
}

/// Whether the entry's text is that of the pair.
pub fn same_text(pair: &(String, String), entry: &(String, Option<String>)) -> (r: bool)
    ensures
        r == (text_of(entry.1) == Some(pair.1@)),
{
    match &entry.1 {
        Some(text) => *text == pair.1,
        None => false,
    }
}

/// Decides [`same_entries`] for a list of pairs in which no key occurs
/// twice.
pub fn holds_same_entries(
    pairs: &Vec<(String, String)>,
    entries: &Vec<(String, Option<String>)>,
) -> (r: bool)
    requires
        distinct_keys(pairs@),
    ensures
        r == same_entries(pairs@, entries@),
{
    let mut i: usize = 0;
    while i < entries.len()
        invariant
            i <= entries@.len(),
            distinct_keys(pairs@),
            forall|h: int|
                0 <= h < i ==> #[trigger] holds_pair(
                    pairs@,
                    entries@[h].0@,
                    text_of(entries@[h].1),
                ),
        decreases entries@.len() - i,
    {
        match find_pair(pairs, &entries[i].0) {
            None => {
                assert(!holds_pair(pairs@, entries@[i as int].0@, text_of(entries@[i as int].1)));
                return false;
            },
            Some(j) => {
                if !same_text(&pairs[j], &entries[i]) {
                    proof {
                        assert forall|h: int|
                            0 <= h < pairs@.len() && (#[trigger] pairs@[h]).0@ == entries@[i as int].0@
                            implies text_of(entries@[i as int].1) != Some(pairs@[h].1@) by {
                            if h != j {
                                assert(pairs@[h].0@ == pairs@[j as int].0@);
                            }
                        }
                        assert(!holds_pair(
                            pairs@,
                            entries@[i as int].0@,
                            text_of(entries@[i as int].1),
                        ));
                    }
                    return false;
                }
                assert(holds_pair(pairs@, entries@[i as int].0@, text_of(entries@[i as int].1)));
            },
        }
        i += 1;
    }
    let mut j: usize = 0;
    while j < pairs.len()
        invariant
            j <= pairs@.len(),
            forall|h: int|
                0 <= h < entries@.len() ==> #[trigger] holds_pair(
                    pairs@,
                    entries@[h].0@,
                    text_of(entries@[h].1),
                ),
            forall|h: int| 0 <= h < j ==> #[trigger] holds_key(entries@, pairs@[h].0@),
        decreases pairs@.len() - j,
    {
        if !has_entry(entries, &pairs[j].0) {
            return false;
        }
        j += 1;
    }
    true
}

} // verus!
