//! A new drawing and a new application.

use crate::dim_styles::plain_dim_style;
use crate::document::{
    CadDocument, DictionaryObject, DocumentView, Header, MLineStyle, ObjectEntry, ObjectType,
};
use crate::geometry::Handle;
use crate::outside::{app_ids, dictionary_entries, new_dictionary, no_ids, AppIdTable};
use crate::records::{normalize, table_key, BlockRecord, DimStyle, LineType, TextStyle};
use crate::scalar::Scalar;
use crate::scene::{plain_layer, Scene};
use crate::studio::{DocumentTab, History, OpenCADStudio, Ribbon};
use crate::style_ops::plain_text_style;
use crate::text::blank;
use std::sync::Arc;
use vstd::prelude::*;
use vstd::string::*;

verus! {

fn plain_linetype(handle: u64, name: &str) -> (result: LineType)
    ensures
        result.handle.value == handle,
        result.name@ == name@,
        result.record@.len() == 0,
{
    LineType {
        handle: Handle { value: handle },
        name: name.to_owned(),
        record: Arc::new(Vec::new()),
    }
}

fn empty_block(handle: u64, name: &str) -> (result: BlockRecord)
    ensures
        result.handle.value == handle,
        result.name@ == name@,
        result.entity_handles@.len() == 0,
{
    BlockRecord {
        handle: Handle { value: handle },
        name: name.to_owned(),
        entity_handles: Arc::new(Vec::new()),
    }
}

/// What a new drawing holds: layer `0`, the standard styles and linetypes, the
/// blocks of model space and of a sheet, and a root dictionary.
pub open spec fn new_drawing(doc: DocumentView) -> bool {
    &&& doc.ordered()
    &&& doc.filed()
    &&& doc.next_handle == 0x20
    &&& doc.entities.len() == 0
    &&& doc.header.current_layer_name@ == "0"@
    &&& doc.header.current_text_style_name@ == "Standard"@
    &&& doc.header.current_dimstyle_name@ == "Standard"@
    &&& doc.layers.len() == 1
    &&& plain_layer(doc.layers[0], Handle { value: 0x1f }, "0"@)
    &&& doc.text_styles.len() == 1
    &&& doc.text_styles[0].handle.value == 0x11
    &&& doc.text_styles[0].handle == doc.header.current_text_style_handle
    &&& plain_text_style(
        TextStyle { handle: Handle { value: 0 }, ..doc.text_styles[0] },
        "Standard"@,
    )
    &&& doc.dim_styles.len() == 1
    &&& doc.dim_styles[0].handle.value == 0x12
    &&& doc.dim_styles[0].handle == doc.header.current_dimstyle_handle
    &&& doc.dim_styles[0].dimtxsty_handle == doc.text_styles[0].handle
    &&& plain_dim_style(
        DimStyle {
            handle: Handle { value: 0 },
            dimtxsty_handle: Handle { value: 0 },
            ..doc.dim_styles[0]
        },
        "Standard"@,
    )
    &&& doc.line_types.len() == 3
    &&& doc.line_types[0].name@ == "ByBlock"@
    &&& doc.line_types[0].handle.value == 0x14
    &&& doc.line_types[0].record@.len() == 0
    &&& doc.line_types[1].name@ == "ByLayer"@
    &&& doc.line_types[1].handle.value == 0x15
    &&& doc.line_types[1].record@.len() == 0
    &&& doc.line_types[2].name@ == "Continuous"@
    &&& doc.line_types[2].handle.value == 0x16
    &&& doc.line_types[2].record@.len() == 0
    &&& doc.block_records.len() == 2
    &&& doc.block_records[0].name@ == "*Model_Space"@
    &&& doc.block_records[0].handle.value == 0x17
    &&& doc.block_records[0].handle == doc.header.model_space_block_handle
    &&& doc.block_records[0].entity_handles@.len() == 0
    &&& doc.block_records[1].name@ == "*Paper_Space"@
    &&& doc.block_records[1].handle.value == 0x18
    &&& doc.block_records[1].handle == doc.header.paper_space_block_handle
    &&& doc.block_records[1].entity_handles@.len() == 0
    &&& doc.app_ids == no_ids().insert(table_key("ACAD"@), 0x13)
    &&& doc.objects.len() == 2
    &&& doc.objects[0].handle.value == 0x19
    &&& doc.objects[0].handle == doc.header.named_objects_dict_handle
    &&& doc.objects[0].object matches ObjectType::Dictionary(root)
        && root.owner.null() && dictionary_entries(root.entries).len() == 0
    &&& doc.objects[1].handle.value == 0x1a
    &&& doc.objects[1].object matches ObjectType::MLineStyle(style) && style.name@ == "Standard"@
        && style.elements == 2 && style.handle == doc.objects[1].handle
}

impl CadDocument {
    /// A new drawing.
    pub fn new() -> (result: Self)
        ensures
            new_drawing(result@),
    {
        let mut text_style = TextStyle::new("Standard");
        text_style.handle = Handle { value: 0x11 };
        let mut dim_style = DimStyle::new("Standard");
        dim_style.handle = Handle { value: 0x12 };
        dim_style.dimtxsty_handle = Handle { value: 0x11 };
        let mut ids = AppIdTable::new();
        ids.register("ACAD", 0x13);
        // The names are filed under keys of their own.
        let block_key = normalize("ByBlock");
        let layer_key = normalize("ByLayer");
        let plain_key = normalize("Continuous");
        let model_key = normalize("*Model_Space");
        let paper_key = normalize("*Paper_Space");
        proof {
            reveal_strlit("ByBlock");
            reveal_strlit("ByLayer");
            reveal_strlit("Continuous");
            reveal_strlit("*Model_Space");
            reveal_strlit("*Paper_Space");
            assert(block_key@[2] as u32 == 'B' as u32);
            assert(layer_key@[2] as u32 == 'L' as u32);
            assert(block_key@ != layer_key@);
            assert(plain_key@.len() != block_key@.len());
            assert(model_key@[1] as u32 == 'M' as u32);
            assert(paper_key@[1] as u32 == 'P' as u32);
            assert(model_key@ != paper_key@);
        }
        let mut line_types: Vec<LineType> = Vec::new();
        line_types.push(plain_linetype(0x14, "ByBlock"));
        line_types.push(plain_linetype(0x15, "ByLayer"));
        line_types.push(plain_linetype(0x16, "Continuous"));
        let mut block_records: Vec<BlockRecord> = Vec::new();
        block_records.push(empty_block(0x17, "*Model_Space"));
        block_records.push(empty_block(0x18, "*Paper_Space"));
        let root = DictionaryObject { owner: Handle { value: 0 }, entries: new_dictionary() };
        let style = MLineStyle {
            handle: Handle { value: 0x1a },
            name: "Standard".to_owned(),
            elements: 2,
        };
        let mut objects: Vec<ObjectEntry> = Vec::new();
        objects.push(
            ObjectEntry {
                handle: Handle { value: 0x19 },
                object: ObjectType::Dictionary(Arc::new(root)),
            },
        );
        objects.push(
            ObjectEntry {
                handle: Handle { value: 0x1a },
                object: ObjectType::MLineStyle(Arc::new(style)),
            },
        );
        let mut text_styles: Vec<TextStyle> = Vec::new();
        text_styles.push(text_style);
        let mut dim_styles: Vec<DimStyle> = Vec::new();
        dim_styles.push(dim_style);
        let mut document = CadDocument {
            next_handle: 0x1f,
            header: Header {
                current_layer_name: "0".to_owned(),
                current_text_style_name: "Standard".to_owned(),
                current_text_style_handle: Handle { value: 0x11 },
                current_dimstyle_name: "Standard".to_owned(),
                current_dimstyle_handle: Handle { value: 0x12 },
                model_space_block_handle: Handle { value: 0x17 },
                paper_space_block_handle: Handle { value: 0x18 },
                named_objects_dict_handle: Handle { value: 0x19 },
            },
            layers: Vec::new(),
            text_styles,
            dim_styles,
            line_types,
            block_records,
            app_ids: Arc::new(ids),
            objects,
            entities: Vec::new(),
        };
        proof {
            reveal_strlit("0");
            assert(!crate::text::space("0"@[0]));
            assert(!blank("0"@));
        }
        document.register_layer("0");
        document
    }
}

impl<S, C> OpenCADStudio<S, C> {
    /// The application with one new drawing. The linetypes are those that any
    /// drawing can be given.
    pub fn new(standard_linetypes: Vec<LineType>) -> (result: Self)
        ensures
            result@.tabs.len() == 1,
            new_drawing(result@.tabs[0].scene.document),
            result@.tabs[0].id == 1,
            result@.tabs[0].current_path is None,
            !result@.tabs[0].dirty,
            result@.tabs[0].active_layer == "0"@,
            result@.tabs[0].panel_layer == "0"@,
            result@.tabs[0].scene.selection.len() == 0,
            result@.tabs[0].undo.len() == 0 && result@.tabs[0].redo.len() == 0,
            result@.tabs[0].plugin_state.len() == 0,
            result@.tabs[0].active_cmd is None,
            result@.active_tab == 0,
            result@.snap_angle_deg.bits == 0,
            result@.command_line.len() == 0,
            result@.events.len() == 0,
            result@.ribbon.active_layer == "0"@,
            result@.standard_linetypes == standard_linetypes@,
    {
        let tab = DocumentTab {
            id: 1,
            current_path: None,
            dirty: false,
            active_layer: "0".to_owned(),
            panel_layer: "0".to_owned(),
            scene: Scene {
                document: CadDocument::new(),
                selection: Vec::new(),
                geometry_epoch: 0,
            },
            history: History { undo_stack: Vec::new(), redo_stack: Vec::new() },
            plugin_state: Vec::new(),
            active_cmd: None,
        };
        let mut tabs: Vec<DocumentTab<S, C>> = Vec::new();
        tabs.push(tab);
        OpenCADStudio {
            tabs,
            active_tab: 0,
            last_plugin_document: None,
            last_plugin_selection: None,
            snap_angle_deg: Scalar { bits: 0 },
            command_line: Vec::new(),
            ribbon: Ribbon {
                active_layer: "0".to_owned(),
                active_text_style: "Standard".to_owned(),
                active_dim_style: "Standard".to_owned(),
            },
            standard_linetypes,
            events: Vec::new(),
        }
    }
}

} // verus!
