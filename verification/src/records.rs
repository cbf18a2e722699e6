//! The named records of a drawing: layers, styles, linetypes and blocks.

use crate::agree::{share, Agree};
use crate::entities::Color;
use crate::geometry::Handle;
use crate::scalar::{Scalar, ONE_BITS};
use crate::search::{place, seek};
use crate::text::{alike, is_alike, is_same};
use std::sync::Arc;
use vstd::prelude::*;
use vstd::string::*;

verus! {

/// The form of a name under which a symbol table files a record.
pub uninterp spec fn table_key(name: Seq<char>) -> Seq<char>;

/// An ASCII letter in upper case, as its code.
pub open spec fn ascii_upper(c: char) -> u32 {
    if 'a' as u32 <= c as u32 <= 'z' as u32 {
        (c as u32 - 32) as u32
    } else {
        c as u32
    }
}

/// `acadrust::tables::normalize_name`; the outcome is the name `table_key`. It
/// takes a name character by character, and an ASCII letter to upper case.
#[verifier::external_body]
pub(crate) fn normalize(name: &str) -> (result: String)
    ensures
        result@ == table_key(name@),
        result@.len() == name@.len(),
        forall|i: int|
            0 <= i < name@.len() && (name@[i] as u32) < 128 ==> (#[trigger] result@[i]) as u32
                == ascii_upper(name@[i]),
{
    acadrust::tables::normalize_name(name)
}

/// A record with a name and a handle.
pub trait Record: Sized {
    spec fn named(self) -> Seq<char>;

    spec fn id(self) -> Handle;

    fn get_name(&self) -> (result: &str)
        ensures
            result@ == self.named(),
    ;

    fn get_handle(&self) -> (result: Handle)
        ensures
            result == self.id(),
    ;
}

/// The record is filed under a key.
pub open spec fn keyed<T: Record>(key: Seq<char>) -> spec_fn(T) -> bool {
    |record: T| table_key(record.named()) == key
}

/// No two records of a table are filed under the same key.
pub open spec fn filed_apart<T: Record>(records: Seq<T>) -> bool {
    forall|i: int, j: int|
        0 <= i < j < records.len() ==> table_key((#[trigger] records[i]).named()) != table_key(
            (#[trigger] records[j]).named(),
        )
}

/// The record's name is the given one, up to the case of ASCII letters.
pub open spec fn spelled<T: Record>(name: Seq<char>) -> spec_fn(T) -> bool {
    |record: T| alike(record.named(), name)
}

/// The record has the handle.
pub open spec fn identified<T: Record>(handle: Handle) -> spec_fn(T) -> bool {
    |record: T| record.id() == handle
}

/// The place of the record that a symbol table files under a name.
pub fn find_key<T: Record>(records: &Vec<T>, name: &str) -> (result: Option<usize>)
    ensures
        place(result) == seek(records@, 0, keyed::<T>(table_key(name@))),
        result matches Some(i) ==> i < records.len(),
{
    let key = normalize(name);
    let mut i: usize = 0;
    while i < records.len()
        invariant
            i <= records.len(),
            key@ == table_key(name@),
            seek(records@, 0, keyed::<T>(table_key(name@))) == seek(
                records@,
                i as int,
                keyed::<T>(table_key(name@)),
            ),
        decreases records.len() - i,
    {
        if is_same(&normalize(records[i].get_name()), &key) {
            return Some(i);
        }
        i = i + 1;
    }
    None
}

/// The place of the first record with a name, up to the case of ASCII letters.
pub fn find_spelled<T: Record>(records: &Vec<T>, name: &str) -> (result: Option<usize>)
    ensures
        place(result) == seek(records@, 0, spelled::<T>(name@)),
        result matches Some(i) ==> i < records.len(),
{
    let mut i: usize = 0;
    while i < records.len()
        invariant
            i <= records.len(),
            seek(records@, 0, spelled::<T>(name@)) == seek(
                records@,
                i as int,
                spelled::<T>(name@),
            ),
        decreases records.len() - i,
    {
        if is_alike(records[i].get_name(), name) {
            return Some(i);
        }
        i = i + 1;
    }
    None
}

/// The place of the first record with a handle.
pub fn find_handle<T: Record>(records: &Vec<T>, handle: Handle) -> (result: Option<usize>)
    ensures
        place(result) == seek(records@, 0, identified::<T>(handle)),
        result matches Some(i) ==> i < records.len(),
{
    let mut i: usize = 0;
    while i < records.len()
        invariant
            i <= records.len(),
            seek(records@, 0, identified::<T>(handle)) == seek(
                records@,
                i as int,
                identified::<T>(handle),
            ),
        decreases records.len() - i,
    {
        if records[i].get_handle() == handle {
            return Some(i);
        }
        i = i + 1;
    }
    None
}

/// The width of a line.
#[derive(Clone, Copy, PartialEq, Eq, Structural, Debug)]
pub enum LineWeight {
    ByLayer,
    ByBlock,
    Standard,
    /// In hundredths of a millimetre.
    Value(i16),
}

/// How much shows through.
#[derive(Clone, Copy, PartialEq, Eq, Structural, Debug)]
pub enum Transparency {
    ByLayer,
    ByBlock,
    /// From opaque (0) to invisible (255).
    Explicit(u8),
}

/// A layer.
#[derive(Debug)]
pub struct Layer {
    pub handle: Handle,
    pub name: String,
    pub off: bool,
    pub frozen: bool,
    pub locked: bool,
    pub color: Color,
    pub color_name: Option<String>,
    pub book_name: Option<String>,
    pub line_type: String,
    pub line_weight: LineWeight,
    pub is_plottable: bool,
    pub transparency: Transparency,
    pub description: String,
    /// The fields that the host hands on unread.
    pub record: Arc<Vec<u8>>,
}

/// A copy of an optional text.
fn copy_text(text: &Option<String>) -> (result: Option<String>)
    ensures
        result == *text,
{
    match text {
        Some(value) => Some(value.clone()),
        None => None,
    }
}

impl Layer {
    pub fn copy(&self) -> (result: Self)
        ensures
            result == *self,
    {
        Layer {
            handle: self.handle,
            name: self.name.clone(),
            off: self.off,
            frozen: self.frozen,
            locked: self.locked,
            color: self.color,
            color_name: copy_text(&self.color_name),
            book_name: copy_text(&self.book_name),
            line_type: self.line_type.clone(),
            line_weight: self.line_weight,
            is_plottable: self.is_plottable,
            transparency: self.transparency,
            description: self.description.clone(),
            record: share(&self.record),
        }
    }
}

/// A linetype.
#[derive(Debug)]
pub struct LineType {
    pub handle: Handle,
    pub name: String,
    /// The fields that the host hands on unread.
    pub record: Arc<Vec<u8>>,
}

impl LineType {
    pub fn copy(&self) -> (result: Self)
        ensures
            result == *self,
    {
        LineType {
            handle: self.handle,
            name: self.name.clone(),
            record: share(&self.record),
        }
    }
}

/// A text style. A height of zero leaves the height to each text.
#[derive(Debug)]
pub struct TextStyle {
    pub handle: Handle,
    pub name: String,
    pub height: Scalar,
    pub width_factor: Scalar,
    pub oblique_angle: Scalar,
    pub font_file: String,
    pub big_font_file: String,
    pub true_type_font: String,
    pub backward: bool,
    pub upside_down: bool,
    pub is_vertical: bool,
    pub annotative: bool,
    pub is_shape_file: bool,
    /// The fields that the host hands on unread.
    pub record: Arc<Vec<u8>>,
}

impl TextStyle {
    /// A style as a new drawing has it: variable height, width factor one, no
    /// slant, the font `txt`.
    pub fn new(name: &str) -> (result: Self)
        ensures
            result.handle.null(),
            result.name@ == name@,
            result.height.bits == 0,
            result.width_factor.bits == ONE_BITS,
            result.oblique_angle.bits == 0,
            result.font_file@ == "txt"@,
            result.big_font_file@ == ""@,
            result.true_type_font@ == ""@,
            !result.backward && !result.upside_down && !result.is_vertical,
            !result.annotative && !result.is_shape_file,
            result.record@ == Seq::<u8>::empty(),
    {
        TextStyle {
            handle: Handle { value: 0 },
            name: name.to_owned(),
            height: Scalar { bits: 0 },
            width_factor: Scalar { bits: ONE_BITS },
            oblique_angle: Scalar { bits: 0 },
            font_file: "txt".to_owned(),
            big_font_file: "".to_owned(),
            true_type_font: "".to_owned(),
            backward: false,
            upside_down: false,
            is_vertical: false,
            annotative: false,
            is_shape_file: false,
            record: Arc::new(Vec::new()),
        }
    }

    pub fn copy(&self) -> (result: Self)
        ensures
            result == *self,
    {
        TextStyle {
            handle: self.handle,
            name: self.name.clone(),
            height: self.height,
            width_factor: self.width_factor,
            oblique_angle: self.oblique_angle,
            font_file: self.font_file.clone(),
            big_font_file: self.big_font_file.clone(),
            true_type_font: self.true_type_font.clone(),
            backward: self.backward,
            upside_down: self.upside_down,
            is_vertical: self.is_vertical,
            annotative: self.annotative,
            is_shape_file: self.is_shape_file,
            record: share(&self.record),
        }
    }
}

impl Agree for TextStyle {
    open spec fn agrees(self, other: Self) -> bool {
        &&& self.handle == other.handle
        &&& self.name@ == other.name@
        &&& self.height.agrees(other.height)
        &&& self.width_factor.agrees(other.width_factor)
        &&& self.oblique_angle.agrees(other.oblique_angle)
        &&& self.font_file@ == other.font_file@
        &&& self.big_font_file@ == other.big_font_file@
        &&& self.true_type_font@ == other.true_type_font@
        &&& self.backward == other.backward
        &&& self.upside_down == other.upside_down
        &&& self.is_vertical == other.is_vertical
        &&& self.annotative == other.annotative
        &&& self.is_shape_file == other.is_shape_file
        &&& self.record.agrees(other.record)
    }

    fn agree(&self, other: &Self) -> (result: bool) {
        self.handle == other.handle && self.name.agree(&other.name) && self.height.agree(
            &other.height,
        ) && self.width_factor.agree(&other.width_factor) && self.oblique_angle.agree(
            &other.oblique_angle,
        ) && self.font_file.agree(&other.font_file) && self.big_font_file.agree(
            &other.big_font_file,
        ) && self.true_type_font.agree(&other.true_type_font) && self.backward == other.backward
            && self.upside_down == other.upside_down && self.is_vertical == other.is_vertical
            && self.annotative == other.annotative && self.is_shape_file == other.is_shape_file
            && self.record.agree(&other.record)
    }

    proof fn agrees_with_itself(&self) {
        self.record.agrees_with_itself();
    }
}

/// One property of a dimension style: its name and its value as JSON.
#[derive(Debug)]
pub struct Property {
    pub key: String,
    pub value: String,
}

impl Agree for Property {
    open spec fn agrees(self, other: Self) -> bool {
        self.key@ == other.key@ && self.value@ == other.value@
    }

    fn agree(&self, other: &Self) -> (result: bool) {
        self.key.agree(&other.key) && self.value.agree(&other.value)
    }

    proof fn agrees_with_itself(&self) {
    }
}

impl Property {
    pub fn copy(&self) -> (result: Self)
        ensures
            result == *self,
    {
        Property { key: self.key.clone(), value: self.value.clone() }
    }
}

/// A dimension style. The properties hold every field of the style as it was
/// last read; of the name, the handles and the text style the fields here are
/// the ones in force.
#[derive(Debug)]
pub struct DimStyle {
    pub handle: Handle,
    pub name: String,
    pub dimscale: Scalar,
    pub dimtxt: Scalar,
    pub dimasz: Scalar,
    pub dimtxsty: String,
    pub dimtxsty_handle: Handle,
    pub properties: Arc<Vec<Property>>,
}

impl DimStyle {
    pub fn copy(&self) -> (result: Self)
        ensures
            result == *self,
    {
        DimStyle {
            handle: self.handle,
            name: self.name.clone(),
            dimscale: self.dimscale,
            dimtxt: self.dimtxt,
            dimasz: self.dimasz,
            dimtxsty: self.dimtxsty.clone(),
            dimtxsty_handle: self.dimtxsty_handle,
            properties: share(&self.properties),
        }
    }
}

/// A block: the entities that it is made of.
#[derive(Debug)]
pub struct BlockRecord {
    pub handle: Handle,
    pub name: String,
    pub entity_handles: Arc<Vec<Handle>>,
}

/// The name starts like that of a paper-space block.
pub open spec fn paper_space(name: Seq<char>) -> bool {
    name.len() >= 12 && alike(name.subrange(0, 12), "*Paper_Space"@)
}

impl BlockRecord {
    /// The block of model space or of a sheet, and no definition to insert.
    pub open spec fn layout(self) -> bool {
        alike(self.name@, "*Model_Space"@) || paper_space(self.name@)
    }

    pub fn is_layout(&self) -> (result: bool)
        ensures
            result == self.layout(),
    {
        if is_alike(&self.name, "*Model_Space") {
            return true;
        }
        let name = self.name.as_str();
        let length: usize = name.unicode_len();
        length >= 12 && is_alike(name.substring_char(0, 12), "*Paper_Space")
    }

    pub fn copy(&self) -> (result: Self)
        ensures
            result == *self,
    {
        BlockRecord {
            handle: self.handle,
            name: self.name.clone(),
            entity_handles: share(&self.entity_handles),
        }
    }
}

impl Record for Layer {
    open spec fn named(self) -> Seq<char> {
        self.name@
    }

    open spec fn id(self) -> Handle {
        self.handle
    }

    fn get_name(&self) -> (result: &str) {
        &self.name
    }

    fn get_handle(&self) -> (result: Handle) {
        self.handle
    }
}

impl Record for LineType {
    open spec fn named(self) -> Seq<char> {
        self.name@
    }

    open spec fn id(self) -> Handle {
        self.handle
    }

    fn get_name(&self) -> (result: &str) {
        &self.name
    }

    fn get_handle(&self) -> (result: Handle) {
        self.handle
    }
}

impl Record for TextStyle {
    open spec fn named(self) -> Seq<char> {
        self.name@
    }

    open spec fn id(self) -> Handle {
        self.handle
    }

    fn get_name(&self) -> (result: &str) {
        &self.name
    }

    fn get_handle(&self) -> (result: Handle) {
        self.handle
    }
}

impl Record for DimStyle {
    open spec fn named(self) -> Seq<char> {
        self.name@
    }

    open spec fn id(self) -> Handle {
        self.handle
    }

    fn get_name(&self) -> (result: &str) {
        &self.name
    }

    fn get_handle(&self) -> (result: Handle) {
        self.handle
    }
}

impl Record for BlockRecord {
    open spec fn named(self) -> Seq<char> {
        self.name@
    }

    open spec fn id(self) -> Handle {
        self.handle
    }

    fn get_name(&self) -> (result: &str) {
        &self.name
    }

    fn get_handle(&self) -> (result: Handle) {
        self.handle
    }
}

} // verus!
