//! The names that symbol tables accept.

use crate::search::{pick, seek};
use crate::text::{
    check, control, fault, first, join, join3, quote_char, quoted_char, trim, trimmed,
    trimming_is_done, unless, Fault,
};
use vstd::prelude::*;
use vstd::string::*;

verus! {

/// A character that no name of a table may have: one of `<>/\":;?*|=` and the
/// backquote, or a control character.
pub open spec fn forbidden(c: char) -> bool {
    c == '<' || c == '>' || c == '/' || c == '\\' || c == '"' || c == ':' || c == ';' || c == '?'
        || c == '*' || c == '|' || c == '=' || c == '`' || control(c)
}

fn is_forbidden(c: char) -> (result: bool)
    ensures
        result == forbidden(c),
{
    let code: u32 = c as u32;
    c == '<' || c == '>' || c == '/' || c == '\\' || c == '"' || c == ':' || c == ';' || c == '?'
        || c == '*' || c == '|' || c == '=' || c == '`' || code <= 0x1f || (0x7f <= code && code
        <= 0x9f)
}

/// The first forbidden character of a text.
pub open spec fn offence(text: Seq<char>) -> Option<char> {
    pick(text, |c: char| forbidden(c))
}

/// Why a text is no name for a table. What the name is for comes first in the
/// message.
pub open spec fn symbol_fault(raw: Seq<char>, what: Seq<char>) -> Fault {
    let name = trimmed(raw);
    first(
        unless(name.len() > 0, what + " cannot be empty"@),
        first(
            unless(name.len() <= 255, what + " is limited to 255 characters"@),
            match offence(name) {
                Some(bad) => Some(what + " cannot contain "@ + quoted_char(bad)),
                None => None,
            },
        ),
    )
}

fn find_offence(text: &str) -> (result: Option<char>)
    ensures
        result == offence(text@),
{
    let length: usize = text.unicode_len();
    let ghost test = |c: char| forbidden(c);
    let mut i: usize = 0;
    while i < length
        invariant
            i <= length,
            length == text@.len(),
            test == (|c: char| forbidden(c)),
            seek(text@, 0, test) == seek(text@, i as int, test),
        decreases length - i,
    {
        let c = text.get_char(i);
        if is_forbidden(c) {
            return Some(c);
        }
        i = i + 1;
    }
    None
}

/// A name for a table, trimmed. It has one to 255 characters, and no forbidden
/// one.
pub fn validated_symbol_name(raw: &str, what: &str) -> (result: Result<String, String>)
    ensures
        fault(result) == symbol_fault(raw@, what@),
        result matches Ok(name) ==> name@ == trimmed(raw@),
{
    let name = trim(raw);
    let length: usize = name.unicode_len();
    check(length > 0, &join(what, " cannot be empty"))?;
    check(length <= 255, &join(what, " is limited to 255 characters"))?;
    match find_offence(name) {
        Some(bad) => Err(join3(what, " cannot contain ", &quote_char(bad))),
        None => Ok(name.to_owned()),
    }
}

/// A name for a layer.
pub fn validated_layer_name(raw: &str) -> (result: Result<String, String>)
    ensures
        fault(result) == symbol_fault(raw@, "a layer name"@),
        result matches Ok(name) ==> name@ == trimmed(raw@),
{
    validated_symbol_name(raw, "a layer name")
}

/// A name that was accepted is accepted again as it is stored, whatever it is
/// for, and stays the same.
pub proof fn accepted_name_stands(raw: Seq<char>, what: Seq<char>, other: Seq<char>)
    requires
        symbol_fault(raw, what) is None,
    ensures
        symbol_fault(trimmed(raw), other) is None,
        trimmed(trimmed(raw)) == trimmed(raw),
{
    trimming_is_done(raw);
}

} // verus!
