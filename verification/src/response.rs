//! The response builder: executes a resolved command against the language
//! directory and formats the single text block to hand to the transport.
//! Inline-code spans are delimited with backticks; any further escaping the
//! output channel needs is the transport adapter's concern.

use vstd::prelude::*;
use vstd::string::*;
use crate::commands::{Command, CommandView};
use crate::commands::parse_command;
use crate::directory::{LanguageDirectory, LanguageEntry, StringTemplates};
use crate::table::ItemTable;
use crate::text::{
    ascii_lower, ascii_upper, is_blank, is_blank_str, join_strings, join_with, lower_char,
    lower_of, lowered, push_char, str_eq, upper_char,
};

verus! {

/// `s` rendered as an inline-code span.
pub open spec fn inline_code(s: Seq<char>) -> Seq<char> {
    "`"@ + s + "`"@
}

/// A successful lookup: the results heading, the item as an inline-code
/// span, a blank line, then the entry's lines concatenated in order, each
/// carrying its own trailing newline.
pub open spec fn hit_text(results: Seq<char>, item: Seq<char>, lines: Seq<Seq<char>>) -> Seq<char> {
    results + " "@ + inline_code(item) + "\n\n"@ + join_with(lines, Seq::empty())
}

/// A failed lookup: the item as an inline-code span, then the not-found
/// template.
pub open spec fn miss_text(item: Seq<char>, not_found: Seq<char>) -> Seq<char> {
    inline_code(item) + " "@ + not_found
}

/// The text a non-blank lookup produces, given the normalized key the item
/// folds to.
pub open spec fn lookup_text(
    item: Seq<char>,
    key: Seq<char>,
    table: ItemTable,
    t: StringTemplates,
) -> Seq<char> {
    if table.has_key(key) {
        hit_text(t.results@, item, table.lines_for(key))
    } else {
        miss_text(item, t.not_found@)
    }
}

/// The full lookup contract: blank input is a deliberate no-op, everything
/// else produces a hit or a miss text.
pub open spec fn lookup_spec(item: Seq<char>, table: ItemTable, t: StringTemplates) -> Option<
    Seq<char>,
> {
    if is_blank(item) {
        Option::None
    } else {
        Option::Some(lookup_text(item, lower_of(item), table, t))
    }
}

/// Looks `item` up in one language's table and formats the response;
/// `None` exactly when the item text is blank.
pub fn lookup(item: &str, entry: &LanguageEntry) -> (r: Option<String>)
    requires
        entry.table.wf(),
    ensures
        match r {
            Option::Some(s) => !is_blank(item@) && s@ == lookup_text(
                item@,
                lower_of(item@),
                entry.table,
                entry.templates,
            ),
            Option::None => is_blank(item@),
        },
{
    if is_blank_str(item) {
        return None;
    }
    let key = lowered(item);
    match entry.table.find(key.as_str()) {
        Some(i) => {
            let mut out = entry.templates.results.clone();
            out.append(" ");
            out.append("`");
            out.append(item);
            out.append("`");
            out.append("\n\n");
            let joined = join_strings(&entry.table.rows[i].entry.lines, "");
            out.append(joined.as_str());
            proof {
                let ix = entry.table.index_of(key@);
                assert(0 <= ix < entry.table.row_count() && entry.table.key_at(ix) == key@);
                assert(ix == i as int);
                reveal_strlit("");
                assert(""@ =~= Seq::<char>::empty());
                assert(joined@ == join_with(entry.table.lines_for(key@), Seq::empty()));
                assert(out@ =~= hit_text(
                    entry.templates.results@,
                    item@,
                    entry.table.lines_for(key@),
                ));
            }
            Some(out)
        },
        None => {
            let mut out = String::new();
            out.append("`");
            out.append(item);
            out.append("`");
            out.append(" ");
            out.append(entry.templates.not_found.as_str());
            proof {
                assert(out@ =~= miss_text(item@, entry.templates.not_found@));
            }
            Some(out)
        },
    }
}

/// A key matches a listing letter when it starts with it.
pub open spec fn starts_with_letter(k: Seq<char>, letter: char) -> bool {
    k.len() > 0 && k[0] == letter
}

/// The keys that match the letter, kept in table order, each exactly once.
pub open spec fn matching_keys(keys: Seq<Seq<char>>, letter: char) -> Seq<Seq<char>>
    decreases keys.len(),
{
    if keys.len() == 0 {
        Seq::empty()
    } else {
        let init = matching_keys(keys.drop_last(), letter);
        if starts_with_letter(keys.last(), letter) {
            init.push(keys.last())
        } else {
            init
        }
    }
}

/// The body of a listing: the matching keys joined by newlines, or the
/// `empty` template when nothing matches — never an empty body.
pub open spec fn list_body(keys: Seq<Seq<char>>, letter: char, empty_tpl: Seq<char>) -> Seq<
    char,
> {
    let m = matching_keys(keys, letter);
    if m.len() == 0 {
        empty_tpl
    } else {
        join_with(m, "\n"@)
    }
}

/// The full listing: the list heading, the upper-cased filter letter as an
/// inline-code span, a blank line, then the body.  The keys are matched
/// against the lower-cased letter: the comparison with the normalized keys
/// is case-insensitive.
pub open spec fn list_text(
    list_tpl: Seq<char>,
    letter: char,
    keys: Seq<Seq<char>>,
    empty_tpl: Seq<char>,
) -> Seq<char> {
    list_tpl + " "@ + inline_code(seq![upper_char(letter)]) + "\n\n"@ + list_body(
        keys,
        lower_char(letter),
        empty_tpl,
    )
}

/// Builds the listing body for one language's table; the filter letter is
/// lower-cased before it is held against the normalized keys.
pub fn filter_keys(table: &ItemTable, templates: &StringTemplates, letter: char) -> (r: String)
    ensures
        r@ == list_body(table.keys(), lower_char(letter), templates.empty@),
{
    let lowered_letter = ascii_lower(letter);
    let n: usize = table.rows.len();
    let mut matched: Vec<String> = Vec::new();
    let mut i: usize = 0;
    while i < n
        invariant
            0 <= i as int <= table.rows@.len(),
            n == table.rows@.len(),
            lowered_letter == lower_char(letter),
            matched.deep_view() == matching_keys(table.keys().take(i as int), lower_char(letter)),
        decreases n - i,
    {
        let ghost before = matched.deep_view();
        let klen: usize = table.rows[i].key.as_str().unicode_len();
        if klen > 0 && table.rows[i].key.as_str().get_char(0) == lowered_letter {
            matched.push(table.rows[i].key.clone());
            proof {
                assert(matched.deep_view() =~= before.push(table.key_at(i as int)));
            }
        }
        proof {
            assert(table.keys().take(i as int + 1).drop_last() =~= table.keys().take(i as int));
            assert(table.keys().take(i as int + 1).last() == table.key_at(i as int));
        }
        i = i + 1;
    }
    proof {
        assert(table.keys().take(table.rows@.len() as int) =~= table.keys());
    }
    if matched.len() == 0 {
        templates.empty.clone()
    } else {
        join_strings(&matched, "\n")
    }
}

/// Formats the listing response for one language.
pub fn list(letter: char, entry: &LanguageEntry) -> (r: String)
    ensures
        r@ == list_text(
            entry.templates.list@,
            letter,
            entry.table.keys(),
            entry.templates.empty@,
        ),
{
    let mut out = entry.templates.list.clone();
    out.append(" ");
    out.append("`");
    push_char(&mut out, ascii_upper(letter));
    out.append("`");
    out.append("\n\n");
    let body = filter_keys(&entry.table, &entry.templates, letter);
    out.append(body.as_str());
    proof {
        assert(out@ =~= list_text(
            entry.templates.list@,
            letter,
            entry.table.keys(),
            entry.templates.empty@,
        ));
    }
    out
}

/// The help text of one language.
pub fn help(entry: &LanguageEntry) -> (r: String)
    ensures
        r@ == entry.templates.help@,
{
    entry.templates.help.clone()
}

/// Which listing a language code resolves to: Italian, English, or (for a
/// code outside the supported set) a suppressed reply.
pub open spec fn list_response(dir: LanguageDirectory, letter: char, lang: Seq<char>) -> Option<
    Seq<char>,
> {
    if lang == "ita"@ {
        Option::Some(
            list_text(dir.ita.templates.list@, letter, dir.ita.table.keys(), dir.ita.templates.empty@),
        )
    } else if lang == "eng"@ {
        Option::Some(
            list_text(dir.eng.templates.list@, letter, dir.eng.table.keys(), dir.eng.templates.empty@),
        )
    } else {
        Option::None
    }
}

/// The full interpreter-to-response pipeline: how one line of user text
/// answers, `None` standing for a deliberately suppressed reply.
pub open spec fn respond_spec(text: Seq<char>, dir: LanguageDirectory) -> Option<Seq<char>> {
    match parse_command(text) {
        CommandView::Eng(item) => lookup_spec(item, dir.eng.table, dir.eng.templates),
        CommandView::Ita(item) => lookup_spec(item, dir.ita.table, dir.ita.templates),
        CommandView::List(letter, lang_opt) => {
            let lang = match lang_opt {
                Option::Some(l) => l,
                Option::None => "eng"@,
            };
            list_response(dir, letter, lang)
        },
        CommandView::Help(opt) => match opt {
            Option::Some(l) => Option::Some(dir.entry_for(l).templates.help@),
            Option::None => Option::None,
        },
        CommandView::Unknown => Option::None,
    }
}

/// Parses one line of user text and produces the response to send, if any.
pub fn respond(text: &str, dir: &LanguageDirectory) -> (r: Option<String>)
    requires
        dir.wf(),
    ensures
        match r {
            Option::Some(s) => respond_spec(text@, *dir) == Option::Some(s@),
            Option::None => respond_spec(text@, *dir) is None,
        },
{
    match Command::analyze_command(text) {
        Command::Eng(item) => lookup(item.as_str(), &dir.eng),
        Command::Ita(item) => lookup(item.as_str(), &dir.ita),
        Command::List(letter, lang_opt) => match lang_opt {
            Some(lang) => {
                if str_eq(lang.as_str(), "ita") {
                    Some(list(letter, &dir.ita))
                } else if str_eq(lang.as_str(), "eng") {
                    Some(list(letter, &dir.eng))
                } else {
                    None
                }
            },
            None => {
                proof {
                    reveal_strlit("eng");
                    reveal_strlit("ita");
                    assert("eng"@[0] == 'e' && "ita"@[0] == 'i');
                    assert("eng"@ != "ita"@);
                }
                Some(list(letter, &dir.eng))
            },
        },
        Command::Help(opt) => match opt {
            Some(lang) => {
                if str_eq(lang.as_str(), "ita") {
                    Some(help(&dir.ita))
                } else {
                    Some(help(&dir.eng))
                }
            },
            None => None,
        },
        Command::Unknown => None,
    }
}

} // verus!
