//! The drawing database.

use crate::agree::share;
use crate::entities::EntityType;
use crate::geometry::Handle;
use crate::outside::{app_id, app_ids, AppIdTable};
use crate::records::{
    filed_apart, find_handle, find_key, identified, keyed, table_key, BlockRecord, DimStyle, Layer,
    LineType, TextStyle,
};
use crate::search::{item, pick, place, seek, seek_back};
use std::sync::Arc;
use vstd::prelude::*;

verus! {

/// The settings that a drawing keeps.
#[derive(Debug)]
pub struct Header {
    pub current_layer_name: String,
    pub current_text_style_name: String,
    pub current_text_style_handle: Handle,
    pub current_dimstyle_name: String,
    pub current_dimstyle_handle: Handle,
    pub model_space_block_handle: Handle,
    pub paper_space_block_handle: Handle,
    pub named_objects_dict_handle: Handle,
}

impl Header {
    pub fn copy(&self) -> (result: Self)
        ensures
            result == *self,
    {
        Header {
            current_layer_name: self.current_layer_name.clone(),
            current_text_style_name: self.current_text_style_name.clone(),
            current_text_style_handle: self.current_text_style_handle,
            current_dimstyle_name: self.current_dimstyle_name.clone(),
            current_dimstyle_handle: self.current_dimstyle_handle,
            model_space_block_handle: self.model_space_block_handle,
            paper_space_block_handle: self.paper_space_block_handle,
            named_objects_dict_handle: self.named_objects_dict_handle,
        }
    }
}

/// A dictionary object and the object that owns it.
pub struct DictionaryObject {
    pub owner: Handle,
    pub entries: acadrust::objects::Dictionary,
}

/// A multiline style.
#[derive(Debug)]
pub struct MLineStyle {
    pub handle: Handle,
    pub name: String,
    /// The number of its line elements.
    pub elements: usize,
}

/// An image file that the drawing refers to.
#[derive(Debug)]
pub struct ImageDefinition {
    pub handle: Handle,
    pub owner: Handle,
    pub file_name: String,
    pub width: u32,
    pub height: u32,
    pub is_loaded: bool,
}

/// An object without a place on the canvas.
pub enum ObjectType {
    Dictionary(Arc<DictionaryObject>),
    MLineStyle(Arc<MLineStyle>),
    MultiLeaderStyle(Arc<Vec<u8>>),
    TableStyle(Arc<Vec<u8>>),
    ImageDefinition(Arc<ImageDefinition>),
    Other(Arc<Vec<u8>>),
}

impl ObjectType {
    pub fn copy(&self) -> (result: Self)
        ensures
            result == *self,
    {
        match self {
            ObjectType::Dictionary(value) => ObjectType::Dictionary(share(value)),
            ObjectType::MLineStyle(value) => ObjectType::MLineStyle(share(value)),
            ObjectType::MultiLeaderStyle(value) => ObjectType::MultiLeaderStyle(share(value)),
            ObjectType::TableStyle(value) => ObjectType::TableStyle(share(value)),
            ObjectType::ImageDefinition(value) => ObjectType::ImageDefinition(share(value)),
            ObjectType::Other(value) => ObjectType::Other(share(value)),
        }
    }
}

/// An object under its handle.
pub struct ObjectEntry {
    pub handle: Handle,
    pub object: ObjectType,
}

/// A value that can be copied whole.
pub trait Twin: Sized {
    fn twin(&self) -> (result: Self)
        ensures
            result == *self,
    ;
}

impl Twin for ObjectEntry {
    fn twin(&self) -> (result: Self) {
        ObjectEntry { handle: self.handle, object: self.object.copy() }
    }
}

impl Twin for Handle {
    fn twin(&self) -> (result: Self) {
        *self
    }
}

impl Twin for Layer {
    fn twin(&self) -> (result: Self) {
        self.copy()
    }
}

impl Twin for LineType {
    fn twin(&self) -> (result: Self) {
        self.copy()
    }
}

impl Twin for TextStyle {
    fn twin(&self) -> (result: Self) {
        self.copy()
    }
}

impl Twin for DimStyle {
    fn twin(&self) -> (result: Self) {
        self.copy()
    }
}

impl Twin for BlockRecord {
    fn twin(&self) -> (result: Self) {
        self.copy()
    }
}

impl Twin for EntityType {
    fn twin(&self) -> (result: Self) {
        self.copy()
    }
}

/// A copy of a list.
pub fn twins<T: Twin>(items: &Vec<T>) -> (result: Vec<T>)
    ensures
        result@ == items@,
{
    let mut result: Vec<T> = Vec::new();
    let mut i: usize = 0;
    while i < items.len()
        invariant
            i <= items.len(),
            result@ == items@.take(i as int),
        decreases items.len() - i,
    {
        result.push(items[i].twin());
        i = i + 1;
        proof {
            assert(result@ =~= items@.take(i as int));
        }
    }
    proof {
        assert(result@ =~= items@);
    }
    result
}

/// A drawing.
pub struct CadDocument {
    /// The next handle to give out.
    pub next_handle: u64,
    pub header: Header,
    pub layers: Vec<Layer>,
    pub text_styles: Vec<TextStyle>,
    pub dim_styles: Vec<DimStyle>,
    pub line_types: Vec<LineType>,
    pub block_records: Vec<BlockRecord>,
    pub app_ids: Arc<AppIdTable>,
    pub objects: Vec<ObjectEntry>,
    pub entities: Vec<EntityType>,
}

/// What a drawing holds.
#[verifier::ext_equal]
pub struct DocumentView {
    pub next_handle: u64,
    pub header: Header,
    pub layers: Seq<Layer>,
    pub text_styles: Seq<TextStyle>,
    pub dim_styles: Seq<DimStyle>,
    pub line_types: Seq<LineType>,
    pub block_records: Seq<BlockRecord>,
    pub app_ids: Map<Seq<char>, u64>,
    pub objects: Seq<ObjectEntry>,
    pub entities: Seq<EntityType>,
}

impl View for CadDocument {
    type V = DocumentView;

    open spec fn view(&self) -> DocumentView {
        DocumentView {
            next_handle: self.next_handle,
            header: self.header,
            layers: self.layers@,
            text_styles: self.text_styles@,
            dim_styles: self.dim_styles@,
            line_types: self.line_types@,
            block_records: self.block_records@,
            app_ids: app_ids(*self.app_ids),
            objects: self.objects@,
            entities: self.entities@,
        }
    }
}

/// The entity has the handle.
pub open spec fn entity_with(handle: Handle) -> spec_fn(EntityType) -> bool {
    |entity: EntityType| entity.common.handle == handle
}

/// The object has the handle.
pub open spec fn object_with(handle: Handle) -> spec_fn(ObjectEntry) -> bool {
    |entry: ObjectEntry| entry.handle == handle
}

impl DocumentView {
    /// The place of the entity with a handle. Where several have it, the one
    /// added last counts.
    pub open spec fn entity_place(self, handle: Handle) -> Option<int> {
        seek_back(self.entities, self.entities.len() as int, entity_with(handle))
    }

    /// The entity with a handle.
    pub open spec fn entity(self, handle: Handle) -> Option<EntityType> {
        match self.entity_place(handle) {
            Some(i) => Some(self.entities[i]),
            None => None,
        }
    }

    /// The object with a handle.
    pub open spec fn object(self, handle: Handle) -> Option<ObjectType> {
        match pick(self.objects, object_with(handle)) {
            Some(entry) => Some(entry.object),
            None => None,
        }
    }

    /// The layer that the layer table files under a name.
    pub open spec fn layer(self, name: Seq<char>) -> Option<Layer> {
        pick(self.layers, keyed::<Layer>(table_key(name)))
    }

    /// The text style that its table files under a name.
    pub open spec fn text_style(self, name: Seq<char>) -> Option<TextStyle> {
        pick(self.text_styles, keyed::<TextStyle>(table_key(name)))
    }

    /// The dimension style that its table files under a name.
    pub open spec fn dim_style(self, name: Seq<char>) -> Option<DimStyle> {
        pick(self.dim_styles, keyed::<DimStyle>(table_key(name)))
    }

    /// The linetype that its table files under a name.
    pub open spec fn line_type(self, name: Seq<char>) -> Option<LineType> {
        pick(self.line_types, keyed::<LineType>(table_key(name)))
    }

    /// The block that its table files under a name.
    pub open spec fn block(self, name: Seq<char>) -> Option<BlockRecord> {
        pick(self.block_records, keyed::<BlockRecord>(table_key(name)))
    }

    /// The block with a handle.
    pub open spec fn block_with(self, handle: Handle) -> Option<BlockRecord> {
        pick(self.block_records, identified::<BlockRecord>(handle))
    }

    /// The handles that can still be given out before the counter runs over.
    pub open spec fn spare(self, count: int) -> bool {
        self.next_handle + count <= u64::MAX
    }

    /// In every table each key leads to one record.
    pub open spec fn filed(self) -> bool {
        &&& filed_apart(self.layers)
        &&& filed_apart(self.text_styles)
        &&& filed_apart(self.dim_styles)
        &&& filed_apart(self.line_types)
        &&& filed_apart(self.block_records)
    }

    /// No entity has a handle that is still to be given out, and none is null.
    pub open spec fn ordered(self) -> bool {
        &&& self.next_handle > 0
        &&& forall|i: int|
            0 <= i < self.entities.len() ==> 0 < (#[trigger] self.entities[i]).common.handle.value
                < self.next_handle
    }
}

impl CadDocument {
    pub fn copy(&self) -> (result: Self)
        ensures
            result@ == self@,
    {
        CadDocument {
            next_handle: self.next_handle,
            header: self.header.copy(),
            layers: twins(&self.layers),
            text_styles: twins(&self.text_styles),
            dim_styles: twins(&self.dim_styles),
            line_types: twins(&self.line_types),
            block_records: twins(&self.block_records),
            app_ids: share(&self.app_ids),
            objects: twins(&self.objects),
            entities: twins(&self.entities),
        }
    }

    pub fn next_handle(&self) -> (result: u64)
        ensures
            result == self@.next_handle,
    {
        self.next_handle
    }

    /// Gives out a handle that no one has yet.
    pub fn allocate_handle(&mut self) -> (result: Handle)
        requires
            old(self)@.spare(1),
        ensures
            result.value == old(self)@.next_handle,
            final(self)@ == (DocumentView {
                next_handle: (old(self)@.next_handle + 1) as u64,
                ..old(self)@
            }),
    {
        let handle = Handle { value: self.next_handle };
        self.next_handle = self.next_handle + 1;
        handle
    }

    /// The place of the entity with a handle.
    pub fn find_entity(&self, handle: Handle) -> (result: Option<usize>)
        ensures
            place(result) == self@.entity_place(handle),
            result matches Some(i) ==> i < self.entities.len(),
    {
        let mut i: usize = self.entities.len();
        while i > 0
            invariant
                i <= self.entities.len(),
                self@.entity_place(handle) == seek_back(
                    self.entities@,
                    i as int,
                    entity_with(handle),
                ),
            decreases i,
        {
            if self.entities[i - 1].common.handle == handle {
                return Some(i - 1);
            }
            i = i - 1;
        }
        None
    }

    /// The entity with a handle.
    pub fn get_entity(&self, handle: Handle) -> (result: Option<&EntityType>)
        ensures
            item(result) == self@.entity(handle),
    {
        match self.find_entity(handle) {
            Some(i) => Some(&self.entities[i]),
            None => None,
        }
    }

    /// The place of the object with a handle.
    pub fn find_object(&self, handle: Handle) -> (result: Option<usize>)
        ensures
            place(result) == seek(self.objects@, 0, object_with(handle)),
            result matches Some(i) ==> i < self.objects.len(),
    {
        let mut i: usize = 0;
        while i < self.objects.len()
            invariant
                i <= self.objects.len(),
                seek(self.objects@, 0, object_with(handle)) == seek(
                    self.objects@,
                    i as int,
                    object_with(handle),
                ),
            decreases self.objects.len() - i,
        {
            if self.objects[i].handle == handle {
                return Some(i);
            }
            i = i + 1;
        }
        None
    }

    /// The object with a handle.
    pub fn get_object(&self, handle: Handle) -> (result: Option<&ObjectType>)
        ensures
            item(result) == self@.object(handle),
    {
        match self.find_object(handle) {
            Some(i) => Some(&self.objects[i].object),
            None => None,
        }
    }

    /// The layer that the layer table files under a name.
    pub fn get_layer(&self, name: &str) -> (result: Option<&Layer>)
        ensures
            item(result) == self@.layer(name@),
    {
        match find_key(&self.layers, name) {
            Some(i) => Some(&self.layers[i]),
            None => None,
        }
    }

    /// The text style that its table files under a name.
    pub fn get_text_style(&self, name: &str) -> (result: Option<&TextStyle>)
        ensures
            item(result) == self@.text_style(name@),
    {
        match find_key(&self.text_styles, name) {
            Some(i) => Some(&self.text_styles[i]),
            None => None,
        }
    }

    /// The dimension style that its table files under a name.
    pub fn get_dim_style(&self, name: &str) -> (result: Option<&DimStyle>)
        ensures
            item(result) == self@.dim_style(name@),
    {
        match find_key(&self.dim_styles, name) {
            Some(i) => Some(&self.dim_styles[i]),
            None => None,
        }
    }

    /// The linetype that its table files under a name.
    pub fn get_line_type(&self, name: &str) -> (result: Option<&LineType>)
        ensures
            item(result) == self@.line_type(name@),
    {
        match find_key(&self.line_types, name) {
            Some(i) => Some(&self.line_types[i]),
            None => None,
        }
    }

    /// The block that its table files under a name.
    pub fn get_block(&self, name: &str) -> (result: Option<&BlockRecord>)
        ensures
            item(result) == self@.block(name@),
    {
        match find_key(&self.block_records, name) {
            Some(i) => Some(&self.block_records[i]),
            None => None,
        }
    }

    /// The block with a handle.
    pub fn get_block_with(&self, handle: Handle) -> (result: Option<&BlockRecord>)
        ensures
            item(result) == self@.block_with(handle),
    {
        match find_handle(&self.block_records, handle) {
            Some(i) => Some(&self.block_records[i]),
            None => None,
        }
    }

    /// The handle under which an application is registered.
    pub fn get_app_id(&self, name: &str) -> (result: Option<u64>)
        ensures
            result == app_id(self@.app_ids, name@),
    {
        self.app_ids.find(name)
    }

    /// Whether an application is registered.
    pub fn has_app_id(&self, name: &str) -> (result: bool)
        ensures
            result == self@.app_ids.contains_key(table_key(name@)),
    {
        self.app_ids.find(name).is_some()
    }
}

} // verus!
