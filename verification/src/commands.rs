//! The command interpreter: parses one line of user text into a typed
//! command.  Parsing is total: malformed input maps to `Help` or `Unknown`,
//! never to a failure.
//!
//! Tokenization splits on the first space only, so arguments containing
//! spaces are preserved verbatim.  Policy choices, applied consistently:
//! a lookup command without its item argument falls back to help in that
//! command's language, and a help argument outside the supported set
//! suppresses the reply.

use vstd::prelude::*;
use vstd::string::*;
use crate::text::{
    ascii_lower, first_non_space_index, first_space, first_space_index, lower_char, lower_of,
    lowered, str_eq, trim_leading,
};

verus! {

/// A parsed command line.
pub enum Command {
    /// Look an item up in the English table.
    Eng(String),
    /// Look an item up in the Italian table.
    Ita(String),
    /// List the items whose key starts with the letter, in the given
    /// language (`None`: the English default).
    List(char, Option<String>),
    /// Show the help text of the given language; `None` suppresses the
    /// reply.
    Help(Option<String>),
    /// The leading token matches no recognized command.
    Unknown,
}

/// The mathematical shape of a parsed command.
pub enum CommandView {
    Eng(Seq<char>),
    Ita(Seq<char>),
    List(char, Option<Seq<char>>),
    Help(Option<Seq<char>>),
    Unknown,
}

impl View for Command {
    type V = CommandView;

    open spec fn view(&self) -> CommandView {
        match self {
            Command::Eng(s) => CommandView::Eng(s@),
            Command::Ita(s) => CommandView::Ita(s@),
            Command::List(c, l) => CommandView::List(
                *c,
                match l {
                    Option::Some(x) => Option::Some(x@),
                    Option::None => Option::None,
                },
            ),
            Command::Help(l) => CommandView::Help(
                match l {
                    Option::Some(x) => Option::Some(x@),
                    Option::None => Option::None,
                },
            ),
            Command::Unknown => CommandView::Unknown,
        }
    }
}

/// The closed set of supported language codes.
pub open spec fn supported_lang(s: Seq<char>) -> bool {
    s == "eng"@ || s == "ita"@
}

/// What follows the first space, or `None` when there is no space.
pub open spec fn rest_of(s: Seq<char>) -> Option<Seq<char>> {
    let fs = first_space(s);
    if fs < s.len() {
        Option::Some(s.subrange(fs + 1, s.len() as int))
    } else {
        Option::None
    }
}

/// How the remainder of a `/list` command parses: a single-character
/// filter, an optional trailing supported language code, and help
/// fallbacks for everything malformed.
pub open spec fn parse_list_args(rest: Seq<char>) -> CommandView {
    let letter_tok = rest.subrange(0, first_space(rest));
    match rest_of(rest) {
        Option::None => {
            if letter_tok.len() == 1 {
                CommandView::List(lower_char(letter_tok[0]), Option::None)
            } else {
                CommandView::Help(Option::Some("eng"@))
            }
        },
        Option::Some(lang_tok) => {
            if letter_tok.len() == 1 && supported_lang(lang_tok) {
                CommandView::List(lower_char(letter_tok[0]), Option::Some(lang_tok))
            } else if supported_lang(lang_tok) {
                CommandView::Help(Option::Some(lang_tok))
            } else {
                CommandView::Help(Option::Some("eng"@))
            }
        },
    }
}

/// How one line of user text parses.
pub open spec fn parse_command(s: Seq<char>) -> CommandView {
    let tok = s.subrange(0, first_space(s));
    if tok == "/eng"@ {
        match rest_of(s) {
            Option::None => CommandView::Help(Option::Some("eng"@)),
            Option::Some(r) => CommandView::Eng(r),
        }
    } else if tok == "/ita"@ {
        match rest_of(s) {
            Option::None => CommandView::Help(Option::Some("ita"@)),
            Option::Some(r) => CommandView::Ita(r),
        }
    } else if tok == "/list"@ {
        match rest_of(s) {
            Option::None => CommandView::Help(Option::Some("eng"@)),
            Option::Some(r) => parse_list_args(r),
        }
    } else if tok == "/help"@ {
        match rest_of(s) {
            Option::None => CommandView::Help(Option::Some("eng"@)),
            Option::Some(r) => {
                if supported_lang(r) {
                    CommandView::Help(Option::Some(r))
                } else {
                    CommandView::Help(Option::None)
                }
            },
        }
    } else {
        CommandView::Unknown
    }
}

/// The lower-cased first character of a non-empty text.
pub fn read_first_char(s: &str) -> (c: char)
    requires
        s@.len() > 0,
    ensures
        c == lower_char(s@[0]),
{
    ascii_lower(s.get_char(0))
}

/// Membership in the closed language set.
pub fn is_supported_lang(s: &str) -> (r: bool)
    ensures
        r == supported_lang(s@),
{
    str_eq(s, "eng") || str_eq(s, "ita")
}

/// Parses the remainder of a `/list` command.
fn analyze_list_args(rest: &str) -> (r: Command)
    ensures
        r@ == parse_list_args(rest@),
{
    let n: usize = rest.unicode_len();
    let fs: usize = first_space_index(rest);
    let letter_tok = rest.substring_char(0, fs);
    if fs < n {
        let lang_tok = rest.substring_char(fs + 1, n);
        let supported = is_supported_lang(lang_tok);
        if letter_tok.unicode_len() == 1 && supported {
            Command::List(read_first_char(letter_tok), Some(lang_tok.to_owned()))
        } else if supported {
            Command::Help(Some(lang_tok.to_owned()))
        } else {
            Command::Help(Some("eng".to_owned()))
        }
    } else {
        if letter_tok.unicode_len() == 1 {
            Command::List(read_first_char(letter_tok), None)
        } else {
            Command::Help(Some("eng".to_owned()))
        }
    }
}

impl Command {
    /// Parses one line of user text; total, never fails.
    pub fn analyze_command(text: &str) -> (r: Self)
        ensures
            r@ == parse_command(text@),
    {
        let n: usize = text.unicode_len();
        let fs: usize = first_space_index(text);
        let tok = text.substring_char(0, fs);
        if str_eq(tok, "/eng") {
            if fs < n {
                Command::Eng(text.substring_char(fs + 1, n).to_owned())
            } else {
                Command::Help(Some("eng".to_owned()))
            }
        } else if str_eq(tok, "/ita") {
            if fs < n {
                Command::Ita(text.substring_char(fs + 1, n).to_owned())
            } else {
                Command::Help(Some("ita".to_owned()))
            }
        } else if str_eq(tok, "/list") {
            if fs < n {
                analyze_list_args(text.substring_char(fs + 1, n))
            } else {
                Command::Help(Some("eng".to_owned()))
            }
        } else if str_eq(tok, "/help") {
            if fs < n {
                let arg = text.substring_char(fs + 1, n);
                if is_supported_lang(arg) {
                    Command::Help(Some(arg.to_owned()))
                } else {
                    Command::Help(None)
                }
            } else {
                Command::Help(Some("eng".to_owned()))
            }
        } else {
            Command::Unknown
        }
    }
}

/// The `/list` remainder failed to parse as letter-plus-language.
#[derive(Debug)]
pub struct ListSyntaxError;

/// How the lower-cased remainder of a list request splits into its filter
/// letter and language code: the text up to the first space must be a
/// single character; what follows it, stripped of leading spaces, is the
/// language code, defaulting to English when absent.  The language code is
/// not validated here.
pub open spec fn split_list_spec(low: Seq<char>) -> Result<(Seq<char>, Seq<char>), ListSyntaxError> {
    let letter = low.subrange(0, first_space(low));
    let lang = trim_leading(low.subrange(first_space(low), low.len() as int));
    if lang.len() == 0 && letter.len() == 1 {
        Result::Ok((letter, "eng"@))
    } else if letter.len() == 1 {
        Result::Ok((letter, lang))
    } else {
        Result::Err(ListSyntaxError)
    }
}

/// Splits a raw list request into its filter letter and language code,
/// after lower-casing the whole input.
pub fn split_list(input: String) -> (r: Result<(String, String), ListSyntaxError>)
    ensures
        match r {
            Ok(p) => split_list_spec(lower_of(input@)) == Result::Ok::<
                (Seq<char>, Seq<char>),
                ListSyntaxError,
            >((p.0@, p.1@)),
            Err(_) => split_list_spec(lower_of(input@)) is Err,
        },
{
    let low = lowered(input.as_str());
    let lowstr = low.as_str();
    let n: usize = lowstr.unicode_len();
    let fs: usize = first_space_index(lowstr);
    let letter = lowstr.substring_char(0, fs);
    let tail = lowstr.substring_char(fs, n);
    let k: usize = first_non_space_index(tail);
    let m: usize = tail.unicode_len();
    let lang = tail.substring_char(k, m);
    if lang.unicode_len() == 0 && letter.unicode_len() == 1 {
        Ok((letter.to_owned(), "eng".to_owned()))
    } else if letter.unicode_len() == 1 {
        Ok((letter.to_owned(), lang.to_owned()))
    } else {
        Err(ListSyntaxError)
    }
}

} // verus!
