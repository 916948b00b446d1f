//! The language directory: for each supported language code, the compiled
//! item table and the localized message templates.  Built once at startup
//! and never mutated afterwards.

use vstd::prelude::*;
use crate::compiler::{compile, compiled_from, has_duplicate, CompileError, SourceItem};
use crate::table::ItemTable;

verus! {

/// The localized message templates of one language.  One field per template
/// key; holding them as fields makes "every key present for every language"
/// structural rather than a runtime invariant.
pub struct StringTemplates {
    /// Message for a lookup command that lacks its item argument.
    pub error: String,
    /// Message appended after an item that the table does not hold.
    pub not_found: String,
    /// Heading placed before a successful lookup's lines.
    pub results: String,
    /// The full help text.
    pub help: String,
    /// Heading placed before a letter listing.
    pub list: String,
    /// Body used when a letter listing has no matches.
    pub empty: String,
}

/// One language's compiled table together with its templates.
pub struct LanguageEntry {
    pub table: ItemTable,
    pub templates: StringTemplates,
}

/// The fixed mapping from language code to its table and templates.  The
/// supported set is closed: English and Italian.
pub struct LanguageDirectory {
    pub eng: LanguageEntry,
    pub ita: LanguageEntry,
}

impl LanguageDirectory {
    pub open spec fn wf(self) -> bool {
        self.eng.table.wf() && self.ita.table.wf()
    }

    /// The entry a language code resolves to: Italian for `"ita"`, the
    /// English default for every other code.
    pub open spec fn entry_for(self, lang: Seq<char>) -> LanguageEntry {
        if lang == "ita"@ {
            self.ita
        } else {
            self.eng
        }
    }
}

/// The initialization routine: compiles both languages' records and pairs
/// each table with its templates.  Fails — before any table is served —
/// exactly when either language's records hold a duplicate item name.
pub fn build_directory(
    eng_records: Vec<SourceItem>,
    eng_templates: StringTemplates,
    ita_records: Vec<SourceItem>,
    ita_templates: StringTemplates,
) -> (r: Result<LanguageDirectory, CompileError>)
    ensures
        match r {
            Ok(dir) => {
                &&& dir.wf()
                &&& compiled_from(eng_records@, dir.eng.table)
                &&& compiled_from(ita_records@, dir.ita.table)
                &&& dir.eng.templates == eng_templates
                &&& dir.ita.templates == ita_templates
            },
            Err(_) => has_duplicate(eng_records@) || has_duplicate(ita_records@),
        },
{
    let eng_table = match compile(eng_records) {
        Ok(t) => t,
        Err(e) => {
            return Err(e);
        },
    };
    let ita_table = match compile(ita_records) {
        Ok(t) => t,
        Err(e) => {
            return Err(e);
        },
    };
    Ok(
        LanguageDirectory {
            eng: LanguageEntry { table: eng_table, templates: eng_templates },
            ita: LanguageEntry { table: ita_table, templates: ita_templates },
        },
    )
}

} // verus!
