//! The localized message templates of the two supported languages.

use vstd::prelude::*;
use crate::directory::StringTemplates;

verus! {

/// The English templates.
pub fn eng_strs() -> (r: StringTemplates)
    ensures
        r.error@ == "needs an `ITEM` argument.\n\nRun the `/help` command for major details."@,
        r.not_found@ == "is not a valid item or not contained in our dictionary."@,
        r.results@ == "Results for"@,
        r.help@
            == "This bot retrieves the pages of some chosen items from the Dungeons and Dragons version 5.0 books.\n\nIt implements the following commands:\n\n/eng `ITEM` --> Retrieves the pages of an `ITEM` using the English books.\n/ita `ITEM` --> Retrieves the pages of an `ITEM` using the Italian books.\n/list `LETTER` `[LANG]` --> Lists the items starting with `LETTER`.\n/help `[LANG]` --> Prints this helper message in your `LANG`.\nEnsure your `LANG` to be supported.\nIf `LANG` is not inserted, the message will be printed in English."@,
        r.list@ == "Items starting with"@,
        r.empty@ == "No items found."@,
{
    StringTemplates {
        error: "needs an `ITEM` argument.\n\nRun the `/help` command for major details.".to_owned(),
        not_found: "is not a valid item or not contained in our dictionary.".to_owned(),
        results: "Results for".to_owned(),
        help:
            "This bot retrieves the pages of some chosen items from the Dungeons and Dragons version 5.0 books.\n\nIt implements the following commands:\n\n/eng `ITEM` --> Retrieves the pages of an `ITEM` using the English books.\n/ita `ITEM` --> Retrieves the pages of an `ITEM` using the Italian books.\n/list `LETTER` `[LANG]` --> Lists the items starting with `LETTER`.\n/help `[LANG]` --> Prints this helper message in your `LANG`.\nEnsure your `LANG` to be supported.\nIf `LANG` is not inserted, the message will be printed in English.".to_owned(),
        list: "Items starting with".to_owned(),
        empty: "No items found.".to_owned(),
    }
}

/// The Italian templates.
pub fn ita_strs() -> (r: StringTemplates)
    ensures
        r.error@
            == "richiede un `ELEMENTO` del gioco come input.\n\nLancia il comando `/help ita` per avere maggiori informazioni."@,
        r.not_found@ == "non è un elemento valido o non è contenuto nel nostro dizionario."@,
        r.results@ == "Risultati per"@,
        r.help@
            == "Questo bot ritrova le pagine di alcuni elementi del gioco dai manuali della versione 5.0 di Dungeons and Dragons.\n\nImplementa i seguenti comandi:\n\n/eng `ELEMENTO` --> Ritrova le pagine di `ELEMENTO` nei manuali inglesi.\n/ita `ELEMENTO` --> Ritrova le pagine di `ELEMENTO` nei manuali italiani.\n/list `LETTERA` `[LINGUA]` --> Elenca gli elementi che iniziano per `LETTERA`.\n/help `[LINGUA]` --> Stampa questo messaggio di aiuto nella tua `LINGUA`.\nAssicurati che la tua `LINGUA` sia supportata.\nSe `LINGUA` non è inserita, di default viene usato l'inglese."@,
        r.list@ == "Elementi che iniziano per"@,
        r.empty@ == "Nessun elemento trovato."@,
{
    StringTemplates {
        error:
            "richiede un `ELEMENTO` del gioco come input.\n\nLancia il comando `/help ita` per avere maggiori informazioni.".to_owned(),
        not_found: "non è un elemento valido o non è contenuto nel nostro dizionario.".to_owned(),
        results: "Risultati per".to_owned(),
        help:
            "Questo bot ritrova le pagine di alcuni elementi del gioco dai manuali della versione 5.0 di Dungeons and Dragons.\n\nImplementa i seguenti comandi:\n\n/eng `ELEMENTO` --> Ritrova le pagine di `ELEMENTO` nei manuali inglesi.\n/ita `ELEMENTO` --> Ritrova le pagine di `ELEMENTO` nei manuali italiani.\n/list `LETTERA` `[LINGUA]` --> Elenca gli elementi che iniziano per `LETTERA`.\n/help `[LINGUA]` --> Stampa questo messaggio di aiuto nella tua `LINGUA`.\nAssicurati che la tua `LINGUA` sia supportata.\nSe `LINGUA` non è inserita, di default viene usato l'inglese.".to_owned(),
        list: "Elementi che iniziano per".to_owned(),
        empty: "Nessun elemento trovato.".to_owned(),
    }
}

} // verus!
