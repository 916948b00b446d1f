//! The library's stated laws: proofs relating the compiler, the lookup
//! path and the listing path, over the same spec functions their contracts
//! use.

use vstd::prelude::*;
use crate::compiler::{compiled_from, entry_lines_of, SourceItem};
use crate::directory::StringTemplates;
use crate::response::{
    hit_text, inline_code, list_body, list_text, lookup_spec, matching_keys, starts_with_letter,
};
use crate::table::ItemTable;
use crate::text::{is_blank, lower_char, lower_of, upper_char};

verus! {

/// Looking up an item that stands in the compiled source data hits, and
/// its book lines come back exactly as the source ordered them.
pub proof fn lemma_lookup_hit_preserves_order(
    records: Seq<SourceItem>,
    t: ItemTable,
    tpl: StringTemplates,
    i: int,
)
    requires
        t.wf(),
        compiled_from(records, t),
        0 <= i < records.len(),
        !is_blank(records[i].name@),
    ensures
        lookup_spec(records[i].name@, t, tpl) == Option::Some(
            hit_text(tpl.results@, records[i].name@, entry_lines_of(records[i])),
        ),
{
    let name = records[i].name@;
    let key = lower_of(name);
    assert(t.key_at(i) == key);
    assert(t.has_key(key));
    let ix = t.index_of(key);
    assert(0 <= ix < t.row_count() && t.key_at(ix) == key);
    if ix < i {
        assert(t.key_at(ix) != t.key_at(i));
        assert(false);
    }
    if i < ix {
        assert(t.key_at(i) != t.key_at(ix));
        assert(false);
    }
    assert(t.lines_for(key) == entry_lines_of(records[i]));
}

/// Looking up an item the table does not hold returns the not-found
/// template with the item embedded verbatim as an inline-code span.
pub proof fn lemma_lookup_miss_verbatim(item: Seq<char>, t: ItemTable, tpl: StringTemplates)
    requires
        !t.has_key(lower_of(item)),
        !is_blank(item),
    ensures
        lookup_spec(item, t, tpl) == Option::Some(
            "`"@ + item + "`"@ + " "@ + tpl.not_found@,
        ),
{
}

/// A blank item text — the empty text included — makes the lookup a
/// deliberate no-op, whatever the table and templates.
pub proof fn lemma_lookup_blank_is_noop(item: Seq<char>, t: ItemTable, tpl: StringTemplates)
    requires
        is_blank(item),
    ensures
        lookup_spec(item, t, tpl) is None,
        is_blank(Seq::<char>::empty()),
{
}

/// Every key a listing selects comes from the given keys and starts with
/// the filter letter.
pub proof fn lemma_matching_keys_sound(keys: Seq<Seq<char>>, letter: char)
    ensures
        forall|x: Seq<char>|
            #[trigger] matching_keys(keys, letter).contains(x) ==> keys.contains(x)
                && starts_with_letter(x, letter),
    decreases keys.len(),
{
    if keys.len() == 0 {
    } else {
        let init = keys.drop_last();
        lemma_matching_keys_sound(init, letter);
        let m = matching_keys(keys, letter);
        let mi = matching_keys(init, letter);
        assert forall|x: Seq<char>| #[trigger] m.contains(x) implies keys.contains(x)
            && starts_with_letter(x, letter) by {
            let idx = choose|idx: int| 0 <= idx < m.len() && m[idx] == x;
            if starts_with_letter(keys.last(), letter) {
                if idx < mi.len() {
                    assert(mi[idx] == x);
                    assert(mi.contains(x));
                    let w = choose|w: int| 0 <= w < init.len() && init[w] == x;
                    assert(keys[w] == x);
                } else {
                    assert(x == keys.last());
                    assert(keys[keys.len() - 1] == x);
                }
            } else {
                assert(mi[idx] == x);
                assert(mi.contains(x));
                let w = choose|w: int| 0 <= w < init.len() && init[w] == x;
                assert(keys[w] == x);
            }
        }
    }
}

/// Every given key that starts with the filter letter appears in the
/// listing's selection.
pub proof fn lemma_matching_keys_complete(keys: Seq<Seq<char>>, letter: char)
    ensures
        forall|j: int|
            0 <= j < keys.len() && starts_with_letter(#[trigger] keys[j], letter)
                ==> matching_keys(keys, letter).contains(keys[j]),
    decreases keys.len(),
{
    if keys.len() == 0 {
    } else {
        let init = keys.drop_last();
        lemma_matching_keys_complete(init, letter);
        let m = matching_keys(keys, letter);
        let mi = matching_keys(init, letter);
        assert forall|j: int|
            0 <= j < keys.len() && starts_with_letter(keys[j], letter) implies m.contains(
            keys[j],
        ) by {
            if j < keys.len() - 1 {
                assert(init[j] == keys[j]);
                assert(mi.contains(keys[j]));
                let w = choose|w: int| 0 <= w < mi.len() && mi[w] == keys[j];
                if starts_with_letter(keys.last(), letter) {
                    assert(m[w] == keys[j]);
                } else {
                    assert(m[w] == keys[j]);
                }
            } else {
                assert(m[m.len() - 1] == keys[j]);
            }
        }
    }
}

/// Distinct keys select a repeat-free listing: each matching key appears
/// exactly once.
pub proof fn lemma_matching_keys_distinct(keys: Seq<Seq<char>>, letter: char)
    requires
        forall|i: int, j: int| 0 <= i < j < keys.len() ==> keys[i] != keys[j],
    ensures
        forall|i: int, j: int|
            0 <= i < j < matching_keys(keys, letter).len() ==> matching_keys(keys, letter)[i]
                != matching_keys(keys, letter)[j],
    decreases keys.len(),
{
    if keys.len() == 0 {
    } else {
        let init = keys.drop_last();
        assert forall|i: int, j: int| 0 <= i < j < init.len() implies init[i] != init[j] by {
            assert(keys[i] != keys[j]);
        }
        lemma_matching_keys_distinct(init, letter);
        lemma_matching_keys_sound(init, letter);
        let m = matching_keys(keys, letter);
        let mi = matching_keys(init, letter);
        if starts_with_letter(keys.last(), letter) {
            assert forall|i: int, j: int| 0 <= i < j < m.len() implies m[i] != m[j] by {
                if j < m.len() - 1 {
                    assert(mi[i] == m[i] && mi[j] == m[j]);
                } else {
                    assert(m[j] == keys.last());
                    assert(m[i] == mi[i]);
                    if m[i] == keys.last() {
                        assert(mi.contains(keys.last()));
                        assert(init.contains(keys.last()));
                        let w = choose|w: int| 0 <= w < init.len() && init[w] == keys.last();
                        assert(keys[w] == keys[keys.len() - 1]);
                        assert(false);
                    }
                }
            }
        }
    }
}

/// The listing law at the table: for a well-formed table, every selected
/// key starts with the letter, every matching table key is selected, and
/// no key is selected twice.
pub proof fn lemma_list_keys_exact(t: ItemTable, letter: char)
    requires
        t.wf(),
    ensures
        forall|x: Seq<char>|
            #[trigger] matching_keys(t.keys(), letter).contains(x) ==> t.has_key(x)
                && starts_with_letter(x, letter),
        forall|j: int|
            0 <= j < t.row_count() && starts_with_letter(#[trigger] t.key_at(j), letter)
                ==> matching_keys(t.keys(), letter).contains(t.key_at(j)),
        forall|i: int, j: int|
            0 <= i < j < matching_keys(t.keys(), letter).len() ==> matching_keys(
                t.keys(),
                letter,
            )[i] != matching_keys(t.keys(), letter)[j],
{
    let keys = t.keys();
    lemma_matching_keys_sound(keys, letter);
    lemma_matching_keys_complete(keys, letter);
    assert forall|i: int, j: int| 0 <= i < j < keys.len() implies keys[i] != keys[j] by {
        assert(t.key_at(i) != t.key_at(j));
    }
    lemma_matching_keys_distinct(keys, letter);
    assert forall|x: Seq<char>| #[trigger] matching_keys(keys, letter).contains(x) implies t
        .has_key(x) && starts_with_letter(x, letter) by {
        let w = choose|w: int| 0 <= w < keys.len() && keys[w] == x;
        assert(t.key_at(w) == x);
    }
    assert forall|j: int|
        0 <= j < t.row_count() && starts_with_letter(#[trigger] t.key_at(j), letter) implies
        matching_keys(keys, letter).contains(t.key_at(j)) by {
        assert(keys[j] == t.key_at(j));
        assert(starts_with_letter(keys[j], letter));
        assert(matching_keys(keys, letter).contains(keys[j]));
    }
}

/// A listing with no matching key shows the `empty` template as its body:
/// the response never carries an empty body.
pub proof fn lemma_list_empty_template(
    list_tpl: Seq<char>,
    letter: char,
    keys: Seq<Seq<char>>,
    empty_tpl: Seq<char>,
)
    requires
        matching_keys(keys, lower_char(letter)).len() == 0,
    ensures
        list_body(keys, lower_char(letter), empty_tpl) == empty_tpl,
        list_text(list_tpl, letter, keys, empty_tpl) == list_tpl + " "@ + inline_code(
            seq![upper_char(letter)],
        ) + "\n\n"@ + empty_tpl,
{
}

} // verus!
