//! Dimension styles and their properties, which plugins give as JSON.

use crate::document::{CadDocument, DocumentView};
use crate::geometry::{is_non_negative, is_proper, non_negative, proper, Handle};
use crate::records::{DimStyle, Property};
use crate::scalar::Scalar;
use crate::search::{pick, place, seek, seek_finds};
use crate::text::{
    check, earliest, fault, first, is_same, join, join3, quote, quoted, unless, Fault,
};
use std::sync::Arc;
use vstd::prelude::*;
use vstd::string::*;

verus! {

/// The members of an object, each a key and the JSON of its value.
pub open spec fn members(properties: Seq<Property>) -> Seq<(Seq<char>, Seq<char>)> {
    Seq::new(properties.len(), |i: int| (properties[i].key@, properties[i].value@))
}

/// What a JSON text holds: the members of an object, nothing where it is another
/// value, or why it is no JSON.
pub uninterp spec fn json_members(text: Seq<char>) -> Result<
    Option<Seq<(Seq<char>, Seq<char>)>>,
    Seq<char>,
>;

/// A dimension style in JSON, as the codec reads it: scale, text height, arrow
/// size and text style, and the style written out again. Or why it cannot be
/// read.
pub uninterp spec fn dim_style_read(json: Seq<char>) -> Result<
    (u64, u64, u64, Seq<char>, Seq<char>),
    Seq<char>,
>;

/// The codec's default dimension style in JSON.
pub uninterp spec fn default_dim_style(name: Seq<char>) -> Seq<char>;

/// What parsing an object came to.
pub open spec fn parsed(result: Result<Option<Vec<Property>>, String>) -> Result<
    Option<Seq<(Seq<char>, Seq<char>)>>,
    Seq<char>,
> {
    match result {
        Ok(Some(properties)) => Ok(Some(members(properties@))),
        Ok(None) => Ok(None),
        Err(message) => Err(message@),
    }
}

/// `serde_json::from_str` into `serde_json::Value`; the outcome, taken apart, is
/// the name `json_members`. The values are written with `Value::to_string`.
#[verifier::external_body]
pub(crate) fn parse_members(text: &str) -> (result: Result<Option<Vec<Property>>, String>)
    ensures
        parsed(result) == json_members(text@),
{
    match serde_json::from_str::<serde_json::Value>(text) {
        Ok(serde_json::Value::Object(object)) => Ok(
            Some(
                object.into_iter().map(
                    |(key, value)| Property { key, value: value.to_string() },
                ).collect(),
            ),
        ),
        Ok(_) => Ok(None),
        Err(error) => Err(error.to_string()),
    }
}

/// What the codec reads of a dimension style.
pub struct DimStyleValues {
    pub dimscale: u64,
    pub dimtxt: u64,
    pub dimasz: u64,
    pub dimtxsty: String,
    /// The style written out again.
    pub json: String,
}

/// What reading a style came to.
pub open spec fn values_read(result: Result<DimStyleValues, String>) -> Result<
    (u64, u64, u64, Seq<char>, Seq<char>),
    Seq<char>,
> {
    match result {
        Ok(values) => Ok(
            (values.dimscale, values.dimtxt, values.dimasz, values.dimtxsty@, values.json@),
        ),
        Err(message) => Err(message@),
    }
}

/// `serde_json::from_str` into `serde_json::Value`, `serde_json::from_value` from
/// there into `acadrust::tables::DimStyle`, and the style back through
/// `serde_json::to_string`; the outcome is the name `dim_style_read`.
#[verifier::external_body]
pub(crate) fn read_dim_style(json: &str) -> (result: Result<DimStyleValues, String>)
    ensures
        values_read(result) == dim_style_read(json@),
{
    let value: serde_json::Value = serde_json::from_str(json).map_err(|e| e.to_string())?;
    let style: acadrust::tables::DimStyle = serde_json::from_value(value).map_err(
        |e| e.to_string(),
    )?;
    Ok(
        DimStyleValues {
            dimscale: style.dimscale.to_bits(),
            dimtxt: style.dimtxt.to_bits(),
            dimasz: style.dimasz.to_bits(),
            dimtxsty: style.dimtxsty.clone(),
            json: serde_json::to_string(&style).map_err(|e| e.to_string())?,
        },
    )
}

/// `acadrust::tables::DimStyle::new`, written with `serde_json::to_string`; the
/// outcome is the name `default_dim_style`.
#[verifier::external_body]
pub(crate) fn new_dim_style(name: &str) -> (result: String)
    ensures
        result@ == default_dim_style(name@),
{
    serde_json::to_string(&acadrust::tables::DimStyle::new(name)).unwrap_or_default()
}

/// The member has the key.
pub open spec fn member_with(key: Seq<char>) -> spec_fn((Seq<char>, Seq<char>)) -> bool {
    |member: (Seq<char>, Seq<char>)| member.0 == key
}

/// The text starts with another.
pub open spec fn starts_with(text: Seq<char>, start: Seq<char>) -> bool {
    text.len() >= start.len() && text.subrange(0, start.len() as int) == start
}

/// The text ends with another.
pub open spec fn ends_with(text: Seq<char>, end: Seq<char>) -> bool {
    text.len() >= end.len() && text.subrange(text.len() - end.len(), text.len() as int) == end
}

/// A property that the host alone sets: the name, the handles and what concerns
/// external references.
pub open spec fn managed(key: Seq<char>) -> bool {
    key == "handle"@ || key == "name"@ || starts_with(key, "xref_"@) || ends_with(
        key,
        "_handle"@,
    )
}

fn is_managed(key: &str) -> (result: bool)
    ensures
        result == managed(key@),
{
    if is_same(key, "handle") || is_same(key, "name") {
        return true;
    }
    let length: usize = key.unicode_len();
    let start: usize = "xref_".unicode_len();
    let end: usize = "_handle".unicode_len();
    (length >= start && is_same(key.substring_char(0, start), "xref_")) || (length >= end
        && is_same(key.substring_char(length - end, length), "_handle"))
}

/// For each property to change, that a plugin may change it and the style has it.
pub open spec fn patch_checks(
    base: Seq<(Seq<char>, Seq<char>)>,
    patch: Seq<(Seq<char>, Seq<char>)>,
) -> spec_fn(int) -> Fault {
    |i: int|
        first(
            unless(
                !managed(patch[i].0),
                "dimension style property "@ + quoted(patch[i].0) + " is managed by the host"@,
            ),
            unless(
                pick(base, member_with(patch[i].0)) is Some,
                "unknown dimension style property "@ + quoted(patch[i].0),
            ),
        )
}

/// Members with the value under one key changed.
pub open spec fn put(
    base: Seq<(Seq<char>, Seq<char>)>,
    member: (Seq<char>, Seq<char>),
) -> Seq<(Seq<char>, Seq<char>)> {
    match seek(base, 0, member_with(member.0)) {
        Some(i) => base.update(i, member),
        None => base,
    }
}

/// Members with all the values of a patch.
pub open spec fn merged(
    base: Seq<(Seq<char>, Seq<char>)>,
    patch: Seq<(Seq<char>, Seq<char>)>,
) -> Seq<(Seq<char>, Seq<char>)>
    decreases patch.len(),
{
    if patch.len() == 0 {
        base
    } else {
        put(merged(base, patch.drop_last()), patch.last())
    }
}

/// Changing a value keeps every key.
proof fn merging_keeps_keys(
    base: Seq<(Seq<char>, Seq<char>)>,
    patch: Seq<(Seq<char>, Seq<char>)>,
    key: Seq<char>,
)
    ensures
        seek(merged(base, patch), 0, member_with(key)) == seek(base, 0, member_with(key)),
    decreases patch.len(),
{
    if patch.len() > 0 {
        let before = merged(base, patch.drop_last());
        let after = merged(base, patch);
        merging_keeps_keys(base, patch.drop_last(), key);
        seek_finds(before, 0, member_with(key));
        seek_finds(after, 0, member_with(key));
        seek_finds(before, 0, member_with(patch.last().0));
        if let Some(i) = seek(before, 0, member_with(key)) {
            assert(member_with(key)(after[i]));
        }
        if let Some(i) = seek(after, 0, member_with(key)) {
            assert(member_with(key)(before[i]));
        }
    }
}

fn find_member(properties: &Vec<Property>, key: &str) -> (result: Option<usize>)
    ensures
        place(result) == seek(members(properties@), 0, member_with(key@)),
        result matches Some(i) ==> i < properties.len(),
{
    let mut i: usize = 0;
    while i < properties.len()
        invariant
            i <= properties.len(),
            seek(members(properties@), 0, member_with(key@)) == seek(
                members(properties@),
                i as int,
                member_with(key@),
            ),
        decreases properties.len() - i,
    {
        proof {
            assert(members(properties@)[i as int] == (
                properties@[i as int].key@,
                properties@[i as int].value@,
            ));
        }
        if is_same(&properties[i].key, key) {
            return Some(i);
        }
        i = i + 1;
    }
    None
}

fn copy_properties(properties: &Vec<Property>) -> (result: Vec<Property>)
    ensures
        result@ == properties@,
{
    let mut result: Vec<Property> = Vec::new();
    let mut i: usize = 0;
    while i < properties.len()
        invariant
            i <= properties.len(),
            result@ == properties@.take(i as int),
        decreases properties.len() - i,
    {
        result.push(properties[i].copy());
        i = i + 1;
        proof {
            assert(result@ =~= properties@.take(i as int));
        }
    }
    proof {
        assert(result@ =~= properties@);
    }
    result
}

/// Puts the values of a patch over the properties of a style. Keys that the host
/// manages and keys that the style lacks are refused.
#[verifier::loop_isolation(false)]
pub fn merge_properties(base: &Vec<Property>, patch: &Vec<Property>) -> (result: Result<
    Vec<Property>,
    String,
>)
    ensures
        fault(result) == earliest(
            0,
            patch.len() as int,
            patch_checks(members(base@), members(patch@)),
        ),
        result matches Ok(properties) ==> members(properties@) == merged(
            members(base@),
            members(patch@),
        ),
{
    let ghost old_members = members(base@);
    let ghost changes = members(patch@);
    let mut properties = copy_properties(base);
    let mut i: usize = 0;
    proof {
        assert(changes.take(0) =~= Seq::empty());
    }
    while i < patch.len()
        invariant
            i <= patch.len(),
            members(properties@) == merged(old_members, changes.take(i as int)),
            earliest(0, patch.len() as int, patch_checks(old_members, changes)) == earliest(
                i as int,
                patch.len() as int,
                patch_checks(old_members, changes),
            ),
        decreases patch.len() - i,
    {
        let key = &patch[i].key;
        proof {
            assert(changes[i as int] == (key@, patch@[i as int].value@));
            merging_keeps_keys(old_members, changes.take(i as int), key@);
            assert(changes.take(i + 1).drop_last() =~= changes.take(i as int));
        }
        check(
            !is_managed(key),
            &join3("dimension style property ", &quote(key), " is managed by the host"),
        )?;
        let ghost before = properties@;
        match find_member(&properties, key) {
            Some(place) => {
                properties.set(
                    place,
                    Property { key: key.clone(), value: patch[i].value.clone() },
                );
                proof {
                    assert(members(properties@) =~= members(before).update(
                        place as int,
                        changes[i as int],
                    ));
                }
            },
            None => {
                return Err(join("unknown dimension style property ", &quote(key)));
            },
        }
        i = i + 1;
    }
    proof {
        assert(changes.take(i as int) =~= changes);
    }
    Ok(properties)
}

/// The members of an object behind one another.
pub open spec fn written_members(list: Seq<(Seq<char>, Seq<char>)>) -> Seq<char>
    decreases list.len(),
{
    if list.len() == 0 {
        ""@
    } else {
        let before = written_members(list.drop_last());
        let separator = if list.len() == 1 {
            "\""@
        } else {
            ",\""@
        };
        before + separator + list.last().0 + "\":"@ + list.last().1
    }
}

/// An object in JSON.
pub open spec fn written(list: Seq<(Seq<char>, Seq<char>)>) -> Seq<char> {
    "{"@ + written_members(list) + "}"@
}

/// Writes properties as an object in JSON.
#[verifier::loop_isolation(false)]
pub fn write_properties(properties: &Vec<Property>) -> (result: String)
    ensures
        result@ == written(members(properties@)),
{
    let ghost list = members(properties@);
    let mut text = "".to_owned();
    let mut i: usize = 0;
    proof {
        assert(list.take(0) =~= Seq::empty());
    }
    while i < properties.len()
        invariant
            i <= properties.len(),
            text@ == written_members(list.take(i as int)),
        decreases properties.len() - i,
    {
        proof {
            assert(list.take(i + 1).drop_last() =~= list.take(i as int));
        }
        let separator = if i == 0 {
            "\""
        } else {
            ",\""
        };
        text = join(
            &join3(&join(&text, separator), &properties[i].key, "\":"),
            &properties[i].value,
        );
        i = i + 1;
    }
    proof {
        assert(list.take(i as int) =~= list);
    }
    join3("{", &text, "}")
}

/// The text style that a dimension style asks for: the one it was given now, or
/// else the one in force.
pub open spec fn asked_text_style(
    base: DimStyle,
    values: DimStyleValues,
    given: bool,
) -> Seq<char> {
    if given {
        values.dimtxsty@
    } else {
        base.dimtxsty@
    }
}

/// A style as the codec read it, bound to its text style.
pub open spec fn dim_styled(
    doc: DocumentView,
    base: DimStyle,
    after: DimStyle,
    values: DimStyleValues,
    given: bool,
    properties: Seq<(Seq<char>, Seq<char>)>,
) -> bool {
    doc.text_style(asked_text_style(base, values, given)) matches Some(text_style) && {
        &&& after == (DimStyle {
            dimscale: Scalar { bits: values.dimscale },
            dimtxt: Scalar { bits: values.dimtxt },
            dimasz: Scalar { bits: values.dimasz },
            dimtxsty: text_style.name,
            dimtxsty_handle: text_style.handle,
            properties: after.properties,
            ..base
        })
        &&& members(after.properties@) == properties
    }
}

/// Makes a style of what the codec read: it has to make sense and to name a text
/// style of the drawing, which is linked by its handle. `given` says whether the
/// text style was given anew.
pub fn finish_dim_style(
    doc: &CadDocument,
    base: &DimStyle,
    values: &DimStyleValues,
    given: bool,
    properties: Vec<Property>,
) -> (result: Result<DimStyle, String>)
    ensures
        fault(result) == read_fault(
            doc@,
            values.dimscale,
            values.dimtxt,
            values.dimasz,
            asked_text_style(*base, *values, given),
        ),
        result matches Ok(after) ==> dim_styled(
            doc@,
            *base,
            after,
            *values,
            given,
            members(properties@),
        ),
{
    let dimscale = Scalar { bits: values.dimscale };
    let dimtxt = Scalar { bits: values.dimtxt };
    let dimasz = Scalar { bits: values.dimasz };
    check(is_proper(dimscale), "dimscale must be greater than zero")?;
    check(is_proper(dimtxt), "dimtxt (text height) must be greater than zero")?;
    check(is_non_negative(dimasz), "dimasz (arrow size) cannot be negative")?;
    let name: &str = if given {
        &values.dimtxsty
    } else {
        &base.dimtxsty
    };
    match doc.get_text_style(name) {
        Some(text_style) => Ok(
            DimStyle {
                handle: base.handle,
                name: base.name.clone(),
                dimscale,
                dimtxt,
                dimasz,
                dimtxsty: text_style.name.clone(),
                dimtxsty_handle: text_style.handle,
                properties: Arc::new(properties),
            },
        ),
        None => Err(
            join3("dimtxsty ", &quote(name), " is not a text style in this drawing"),
        ),
    }
}

/// The members of a style that the codec wrote out.
pub open spec fn rewritten(json: Seq<char>) -> Seq<(Seq<char>, Seq<char>)> {
    match json_members(json) {
        Ok(Some(list)) => list,
        _ => Seq::empty(),
    }
}

/// Why properties in JSON cannot be applied to a style with the given members and
/// text style.
pub open spec fn json_fault(
    doc: DocumentView,
    base: Seq<(Seq<char>, Seq<char>)>,
    base_text_style: Seq<char>,
    text: Seq<char>,
) -> Fault {
    match json_members(text) {
        Err(message) => Some("dimension style properties are not valid JSON: "@ + message),
        Ok(None) => Some("dimension style properties must be an object"@),
        Ok(Some(patch)) => first(
            earliest(0, patch.len() as int, patch_checks(base, patch)),
            match dim_style_read(written(merged(base, patch))) {
                Err(message) => Some("invalid dimension style value: "@ + message),
                Ok((dimscale, dimtxt, dimasz, dimtxsty, json)) => read_fault(
                    doc,
                    dimscale,
                    dimtxt,
                    dimasz,
                    if pick(patch, member_with("dimtxsty"@)) is Some {
                        dimtxsty
                    } else {
                        base_text_style
                    },
                ),
            },
        ),
    }
}

/// Why the values that the codec read will not do.
pub open spec fn read_fault(
    doc: DocumentView,
    dimscale: u64,
    dimtxt: u64,
    dimasz: u64,
    text_style: Seq<char>,
) -> Fault {
    first(
        unless(proper(Scalar { bits: dimscale }), "dimscale must be greater than zero"@),
        first(
            unless(
                proper(Scalar { bits: dimtxt }),
                "dimtxt (text height) must be greater than zero"@,
            ),
            first(
                unless(
                    non_negative(Scalar { bits: dimasz }),
                    "dimasz (arrow size) cannot be negative"@,
                ),
                unless(
                    doc.text_style(text_style) is Some,
                    "dimtxsty "@ + quoted(text_style) + " is not a text style in this drawing"@,
                ),
            ),
        ),
    )
}

/// The style that properties in JSON make of another.
pub open spec fn json_applied(
    doc: DocumentView,
    base: DimStyle,
    after: DimStyle,
    text: Seq<char>,
) -> bool {
    &&& json_members(text) matches Ok(Some(patch)) && (dim_style_read(
        written(merged(members(base.properties@), patch)),
    ) matches Ok(read) && {
        let text_style = if pick(patch, member_with("dimtxsty"@)) is Some {
            read.3
        } else {
            base.dimtxsty@
        };
        &&& doc.text_style(text_style) matches Some(found) && after == (DimStyle {
            dimscale: Scalar { bits: read.0 },
            dimtxt: Scalar { bits: read.1 },
            dimasz: Scalar { bits: read.2 },
            dimtxsty: found.name,
            dimtxsty_handle: found.handle,
            properties: after.properties,
            ..base
        })
        &&& members(after.properties@) == rewritten(read.4)
    })
}

/// Applies properties in JSON to a style. The host's own properties cannot be
/// set this way, nor can unknown ones, and the text style has to be one of the
/// drawing.
pub fn apply_dim_style_json(doc: &CadDocument, base: &DimStyle, properties: &str) -> (result: Result<
    DimStyle,
    String,
>)
    ensures
        fault(result) == json_fault(
            doc@,
            members(base.properties@),
            base.dimtxsty@,
            properties@,
        ),
        result matches Ok(after) ==> json_applied(doc@, *base, after, properties@),
{
    let patch = match parse_members(properties) {
        Err(message) => {
            return Err(join("dimension style properties are not valid JSON: ", &message));
        },
        Ok(None) => {
            return Err("dimension style properties must be an object".to_owned());
        },
        Ok(Some(patch)) => patch,
    };
    let changed = merge_properties(&base.properties, &patch)?;
    let values = match read_dim_style(&write_properties(&changed)) {
        Err(message) => {
            return Err(join("invalid dimension style value: ", &message));
        },
        Ok(values) => values,
    };
    let rewritten_properties: Vec<Property> = match parse_members(&values.json) {
        Ok(Some(list)) => list,
        _ => Vec::new(),
    };
    proof {
        if !(json_members(values.json@) matches Ok(Some(_))) {
            assert(members(rewritten_properties@) =~= rewritten(values.json@));
        }
    }
    let given = find_member(&patch, "dimtxsty").is_some();
    finish_dim_style(doc, base, &values, given, rewritten_properties)
}

/// The JSON of a floating-point zero, of either sign.
pub open spec fn zero_text(value: Seq<char>) -> bool {
    value == "0.0"@ || value == "-0.0"@
}

/// Two values are equal. The two zeros are. A number that is none does not come
/// out of JSON, so there is none to tell from itself.
pub open spec fn same_value(a: Seq<char>, b: Seq<char>) -> bool {
    a == b || (zero_text(a) && zero_text(b))
}

fn is_zero_text(value: &str) -> (result: bool)
    ensures
        result == zero_text(value@),
{
    is_same(value, "0.0") || is_same(value, "-0.0")
}

/// The properties of two styles are the same but for the text style, which the
/// styles hold themselves.
pub open spec fn same_properties(
    a: Seq<(Seq<char>, Seq<char>)>,
    b: Seq<(Seq<char>, Seq<char>)>,
) -> bool {
    a.len() == b.len() && forall|i: int|
        0 <= i < a.len() ==> (#[trigger] a[i]).0 == b[i].0 && (same_value(a[i].1, b[i].1)
            || a[i].0 == "dimtxsty"@)
}

/// Two dimension styles are the same but for their name and handle.
pub open spec fn same_dim_style(a: DimStyle, b: DimStyle) -> bool {
    &&& a.dimtxsty@ == b.dimtxsty@
    &&& a.dimtxsty_handle == b.dimtxsty_handle
    &&& same_properties(members(a.properties@), members(b.properties@))
}

#[verifier::loop_isolation(false)]
pub(crate) fn is_same_dim_style(a: &DimStyle, b: &DimStyle) -> (result: bool)
    ensures
        result == same_dim_style(*a, *b),
{
    if !is_same(&a.dimtxsty, &b.dimtxsty) || a.dimtxsty_handle != b.dimtxsty_handle {
        return false;
    }
    let left: &Vec<Property> = &a.properties;
    let right: &Vec<Property> = &b.properties;
    if left.len() != right.len() {
        return false;
    }
    let ghost first_list = members(left@);
    let ghost second_list = members(right@);
    let mut i: usize = 0;
    while i < left.len()
        invariant
            i <= left.len(),
            left.len() == right.len(),
            forall|j: int|
                0 <= j < i ==> (#[trigger] first_list[j]).0 == second_list[j].0 && (
                same_value(first_list[j].1, second_list[j].1) || first_list[j].0 == "dimtxsty"@),
        decreases left.len() - i,
    {
        proof {
            assert(first_list[i as int] == (left@[i as int].key@, left@[i as int].value@));
            assert(second_list[i as int] == (right@[i as int].key@, right@[i as int].value@));
        }
        if !is_same(&left[i].key, &right[i].key) {
            return false;
        }
        let same = is_same(&left[i].value, &right[i].value) || (is_zero_text(&left[i].value)
            && is_zero_text(&right[i].value));
        if !same && !is_same(&left[i].key, "dimtxsty") {
            return false;
        }
        i = i + 1;
    }
    true
}

/// The text style of the codec's default dimension style.
pub open spec fn default_text_style(name: Seq<char>) -> Seq<char> {
    match dim_style_read(default_dim_style(name)) {
        Ok(read) => read.3,
        Err(_) => ""@,
    }
}

/// The codec's default dimension style, without a handle.
pub open spec fn plain_dim_style(style: DimStyle, name: Seq<char>) -> bool {
    let read = dim_style_read(default_dim_style(name));
    &&& style.handle.null()
    &&& style.name@ == name
    &&& style.dimtxsty@ == default_text_style(name)
    &&& style.dimtxsty_handle.null()
    &&& style.dimscale.bits == (match read {
        Ok(values) => values.0,
        Err(_) => 0,
    })
    &&& style.dimtxt.bits == (match read {
        Ok(values) => values.1,
        Err(_) => 0,
    })
    &&& style.dimasz.bits == (match read {
        Ok(values) => values.2,
        Err(_) => 0,
    })
    &&& members(style.properties@) == rewritten(default_dim_style(name))
}

impl DimStyle {
    /// The codec's default dimension style.
    pub fn new(name: &str) -> (result: Self)
        ensures
            plain_dim_style(result, name@),
    {
        let json = new_dim_style(name);
        let properties: Vec<Property> = match parse_members(&json) {
            Ok(Some(list)) => list,
            _ => Vec::new(),
        };
        proof {
            if !(json_members(json@) matches Ok(Some(_))) {
                assert(members(properties@) =~= rewritten(json@));
            }
        }
        let values = match read_dim_style(&json) {
            Ok(values) => values,
            Err(_) => DimStyleValues {
                dimscale: 0,
                dimtxt: 0,
                dimasz: 0,
                dimtxsty: "".to_owned(),
                json: "".to_owned(),
            },
        };
        DimStyle {
            handle: Handle { value: 0 },
            name: name.to_owned(),
            dimscale: Scalar { bits: values.dimscale },
            dimtxt: Scalar { bits: values.dimtxt },
            dimasz: Scalar { bits: values.dimasz },
            dimtxsty: values.dimtxsty,
            dimtxsty_handle: Handle { value: 0 },
            properties: Arc::new(properties),
        }
    }
}

} // verus!
