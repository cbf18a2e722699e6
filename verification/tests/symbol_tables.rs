//! Layers, text styles and dimension styles as a plugin changes them.

use std::sync::Arc;

use ocs_plugin_host::dim_styles::{apply_dim_style_json, merge_properties, write_properties};
use ocs_plugin_host::entities::{
    AttributeEntity, AttributeRecord, AttributeText, Color, Encoded, EntityCommon, EntityData,
    EntityType, ExtendedData, ExtendedDataRecord, Insert, Line, StyledText, XDataValue,
};
use ocs_plugin_host::geometry::{Handle, Vector3};
use ocs_plugin_host::layers::LayerConfig;
use ocs_plugin_host::naming::{validated_layer_name, validated_symbol_name};
use ocs_plugin_host::normalize::Derived;
use ocs_plugin_host::records::{
    DimStyle, LineType, LineWeight, Property, TextStyle, Transparency,
};
use ocs_plugin_host::scalar::Scalar;
use ocs_plugin_host::scripting::Scripted;
use ocs_plugin_host::session::HostSession;
use ocs_plugin_host::studio::{HostEvent, OpenCADStudio, TableStyleKind};
use ocs_plugin_host::style_ops::TableOperation;
use ocs_plugin_host::styles::{apply_text_style_config, TextStyleConfig};

type Session<'a> = HostSession<'a, (), ()>;

fn num(value: f64) -> Scalar {
    Scalar { bits: value.to_bits() }
}

fn at(x: f64, y: f64, z: f64) -> Vector3 {
    Vector3 { x: num(x), y: num(y), z: num(z), length: num(x.hypot(y).hypot(z)) }
}

fn entity(layer: &str, data: EntityData) -> Scripted {
    Scripted {
        entity: EntityType {
            common: EntityCommon {
                handle: Handle { value: 0 },
                layer: layer.into(),
                owner_handle: Handle { value: 0 },
                on_paper: false,
                look: Arc::new(Encoded::none()),
                extended_data: Arc::new(ExtendedData {
                    records: Vec::new(),
                    raw_dwg_eed: Vec::new(),
                }),
            },
            data,
            record: Arc::new(Encoded::none()),
        },
        derived: Derived::Nothing,
        file: Err("no file".into()),
    }
}

fn line(layer: &str) -> Scripted {
    entity(layer, EntityData::Line(Line { start: at(0.0, 0.0, 0.0), end: at(1.0, 0.0, 0.0) }))
}

fn standard_linetypes() -> Vec<LineType> {
    ["DASHED", "CENTER"]
        .into_iter()
        .map(|name| LineType {
            handle: Handle { value: 0 },
            name: name.into(),
            record: Arc::new(Vec::new()),
        })
        .collect()
}

fn new_app() -> OpenCADStudio<(), ()> {
    OpenCADStudio::new(standard_linetypes())
}

fn create(config: LayerConfig) -> TableOperation {
    TableOperation::LayerCreate { config }
}

fn modify(config: LayerConfig) -> TableOperation {
    TableOperation::LayerModify { config }
}

fn rename(from: &str, to: &str) -> TableOperation {
    TableOperation::LayerRename { from: from.into(), to: to.into() }
}

fn delete(name: &str, erase_objects: bool) -> TableOperation {
    TableOperation::LayerDelete { name: name.into(), erase_objects }
}

fn current(name: &str) -> TableOperation {
    TableOperation::LayerSetCurrent { name: name.into() }
}

/// The operation is refused with the message, and nothing changes.
fn refused(host: &mut Session<'_>, operation: TableOperation, message: &str) {
    let steps = host.app.tabs[0].history.undo_stack.len();
    let told = host.app.events.len();
    let layers = host.document().layers.len();
    let styles = host.document().text_styles.len() + host.document().dim_styles.len();
    let linetypes = host.document().line_types.len();
    let next = host.document().next_handle();
    assert_eq!(host.table_operation(operation), Err(message.to_string()));
    assert_eq!(host.app.tabs[0].history.undo_stack.len(), steps, "{message}");
    assert_eq!(host.app.events.len(), told, "{message}");
    assert_eq!(host.document().layers.len(), layers, "{message}");
    assert_eq!(
        host.document().text_styles.len() + host.document().dim_styles.len(),
        styles,
        "{message}"
    );
    assert_eq!(host.document().line_types.len(), linetypes, "{message}");
    assert_eq!(host.document().next_handle(), next, "{message}");
}

#[test]
fn the_layer_table_is_changed_and_undone() {
    let mut app = new_app();
    {
        let mut host: Session = HostSession::new(&mut app, 0);
        let mut walls = LayerConfig::named("Walls");
        walls.color = Some(Color::Index(1));
        walls.lineweight = Some(LineWeight::Value(50));
        walls.description = Some("load bearing".into());
        walls.transparency = Some(Transparency::Explicit(76));
        host.table_operation(create(walls)).unwrap();
        let mut grid = LayerConfig::named("Grid");
        grid.color = Some(Color::Rgb(10, 200, 30));
        grid.linetype = Some("Continuous".into());
        grid.off = Some(true);
        grid.plottable = Some(false);
        host.table_operation(create(grid)).unwrap();
        let mut change = LayerConfig::named("Walls");
        change.color = Some(Color::Index(5));
        change.locked = Some(true);
        host.table_operation(modify(change)).unwrap();
        host.add_entity(line("Walls"));
        host.table_operation(rename("Walls", "Structure")).unwrap();

        refused(
            &mut host,
            create(LayerConfig::named("structure")),
            "layer \"structure\" already exists",
        );
        refused(
            &mut host,
            create(LayerConfig::named("a<b")),
            "a layer name cannot contain '<'",
        );
        refused(&mut host, create(LayerConfig::named("  ")), "a layer name cannot be empty");
        let mut config = LayerConfig::named("C1");
        config.color = Some(Color::Index(0));
        refused(&mut host, create(config), "a layer color index must be 1-255");
        let mut config = LayerConfig::named("C1");
        config.color = Some(Color::ByLayer);
        refused(
            &mut host,
            create(config),
            "a layer color must be an index 1-255 or an RGB value",
        );
        let mut config = LayerConfig::named("C2");
        config.linetype = Some("Nope".into());
        refused(
            &mut host,
            create(config),
            "linetype \"Nope\" does not exist in this drawing",
        );
        let mut config = LayerConfig::named("C3");
        config.lineweight = Some(LineWeight::Value(999));
        refused(
            &mut host,
            create(config),
            "a layer lineweight must be between 0 and 211 (1/100 mm)",
        );
        refused(&mut host, rename("0", "X"), "layer \"0\" cannot be renamed");
        refused(&mut host, rename("Grid", "STRUCTURE"), "layer \"STRUCTURE\" already exists");
        refused(&mut host, rename("Nope", "X2"), "layer \"Nope\" does not exist");
        refused(
            &mut host,
            rename("Grid", " Grid "),
            "the new layer name is the same as the current one",
        );
        refused(&mut host, delete("0", false), "layer \"0\" cannot be deleted");
        refused(
            &mut host,
            delete("Structure", false),
            "layer \"Structure\" still holds 1 object(s); pass erase_objects=True to erase them \
             with the layer",
        );
        let mut config = LayerConfig::named("0");
        config.frozen = Some(true);
        refused(&mut host, modify(config), "the current layer cannot be frozen");
        refused(
            &mut host,
            modify(LayerConfig::named("Grid")),
            "no layer properties to change",
        );
        let mut config = LayerConfig::named("Nope");
        config.off = Some(true);
        refused(&mut host, modify(config), "layer \"Nope\" does not exist");
        refused(&mut host, current("Nope"), "layer \"Nope\" does not exist");

        let document = host.document();
        assert!(document.get_layer("Walls").is_none());
        let structure = document.get_layer("Structure").unwrap();
        assert_eq!(structure.color, Color::Index(5));
        assert_eq!(structure.line_weight, LineWeight::Value(50));
        assert!(structure.locked);
        assert_eq!(structure.description, "load bearing");
        assert_eq!(structure.transparency, Transparency::Explicit(76));
        let grid = document.get_layer("Grid").unwrap();
        assert_eq!(grid.color, Color::Rgb(10, 200, 30));
        assert!(grid.off && !grid.is_plottable);
        assert_eq!(grid.line_type, "Continuous");
        assert_eq!(document.entities[0].common.layer, "Structure");

        // The current layer stays, and goes once it is no longer current.
        host.table_operation(current("grid")).unwrap();
        assert_eq!(host.document().header.current_layer_name, "Grid");
        refused(&mut host, delete("Grid", false), "the current layer cannot be deleted");
        let mut config = LayerConfig::named("Grid");
        config.frozen = Some(true);
        refused(&mut host, modify(config), "the current layer cannot be frozen");
        host.table_operation(current("0")).unwrap();
        host.table_operation(delete("Grid", false)).unwrap();
        let mut unlock = LayerConfig::named("Structure");
        unlock.locked = Some(false);
        host.table_operation(modify(unlock)).unwrap();
        host.table_operation(delete("Structure", true)).unwrap();
        let document = host.document();
        assert!(document.get_layer("Grid").is_none() && document.get_layer("Structure").is_none());
        assert_eq!(document.header.current_layer_name, "0");
        assert!(document.entities.is_empty());
    }
    let before = app.tabs[0].history.undo_stack.len();
    app.tabs[0].undo_steps(1);
    assert_eq!(app.tabs[0].history.undo_stack.len(), before - 1);
    let document = &app.tabs[0].scene.document;
    assert!(document.get_layer("Structure").is_some());
    assert_eq!(document.entities.len(), 1);
    app.tabs[0].redo_steps(1);
    assert!(app.tabs[0].scene.document.get_layer("Structure").is_none());
}

#[test]
fn an_external_layer_stays() {
    let mut app = new_app();
    let mut host: Session = HostSession::new(&mut app, 0);
    host.add_entity(line("plan|doors"));
    refused(
        &mut host,
        delete("plan|doors", true),
        "an externally referenced layer cannot be deleted",
    );
}

#[test]
fn a_standard_linetype_is_loaded_when_a_layer_asks_for_it() {
    let mut app = new_app();
    let mut host: Session = HostSession::new(&mut app, 0);
    assert!(host.document().get_line_type("dashed").is_none());
    let mut config = LayerConfig::named("Hidden");
    config.linetype = Some("dashed".into());
    let handle = host.add_layer(config).unwrap();
    let layer = host.document().get_layer("HIDDEN").unwrap();
    assert_eq!((layer.handle, layer.line_type.as_str()), (handle, "DASHED"));
    assert!(host.document().get_line_type("Center").is_some());
    let mut config = LayerConfig::named("Other");
    config.linetype = Some("Nope".into());
    assert_eq!(host.add_layer(config), None);
    assert_eq!(host.add_layer(LayerConfig::named(" \t")), None);
    assert!(!host.modify_layer(LayerConfig::named("")));
}

#[test]
fn a_layer_that_is_made_is_announced() {
    let mut app = new_app();
    let mut host: Session = HostSession::new(&mut app, 0);
    host.add_layer(LayerConfig::named(" Plan ")).unwrap();
    assert!(host.app.tabs[0].dirty);
    assert!(matches!(&host.app.events[0], HostEvent::LayersChanged(0, names) if names == &["Plan"]));
    assert!(matches!(host.app.events[1], HostEvent::LayerPanelChanged));
}

#[test]
fn a_layer_is_recolored_without_its_color_book() {
    let mut app = new_app();
    let mut host: Session = HostSession::new(&mut app, 0);
    host.add_layer(LayerConfig::named("Pipe")).unwrap();
    let at: usize = host.document().layers.len() - 1;
    host.document_mut().layers[at].color_name = Some("Blue".into());
    host.document_mut().layers[at].book_name = Some("Book".into());
    let mut config = LayerConfig::named("pipe");
    config.frozen = Some(true);
    assert!(host.modify_layer(config));
    assert_eq!(host.document().layers[at].color_name, Some("Blue".into()));
    let mut config = LayerConfig::named("pipe");
    config.color = Some(Color::Index(3));
    assert!(host.modify_layer(config));
    let layer = &host.document().layers[at];
    assert_eq!((&layer.color_name, &layer.book_name), (&None, &None));
    assert!(layer.frozen && layer.color == Color::Index(3));
}

#[test]
fn names_are_trimmed_and_checked() {
    assert_eq!(validated_layer_name("  Roof "), Ok("Roof".into()));
    assert_eq!(validated_layer_name("\u{3000}"), Err("a layer name cannot be empty".into()));
    let name = validated_symbol_name(" A-1 ", "a style name").unwrap();
    assert_eq!(validated_symbol_name(&name, "another name"), Ok("A-1".into()));
    let widest = "w".repeat(255);
    assert_eq!(validated_layer_name(&widest), Ok(widest.clone()));
    assert_eq!(
        validated_layer_name(&(widest + "w")),
        Err("a layer name is limited to 255 characters".into())
    );
    for (name, shown) in [
        ("a\tb", "'\\t'"),
        ("a'b\"", "'\"'"),
        ("a\\b", "'\\\\'"),
        ("a\u{7f}b", "'\\u{7f}'"),
        ("a`b", "'`'"),
    ] {
        assert_eq!(
            validated_symbol_name(name, "a name"),
            Err(format!("a name cannot contain {shown}"))
        );
    }
}

fn text(config: TextStyleConfig, new: bool) -> TableOperation {
    if new {
        TableOperation::TextStyleCreate { config }
    } else {
        TableOperation::TextStyleModify { config }
    }
}

fn dim(name: &str, copy_from: Option<&str>, properties: &str) -> TableOperation {
    TableOperation::DimStyleCreate {
        name: name.into(),
        copy_from: copy_from.map(str::to_owned),
        properties: properties.into(),
    }
}

fn change(name: &str, properties: &str) -> TableOperation {
    TableOperation::DimStyleModify { name: name.into(), properties: properties.into() }
}

fn style_rename(kind: TableStyleKind, from: &str, to: &str) -> TableOperation {
    TableOperation::StyleRename { kind, from: from.into(), to: to.into() }
}

fn style_delete(kind: TableStyleKind, name: &str) -> TableOperation {
    TableOperation::StyleDelete { kind, name: name.into() }
}

fn style_current(kind: TableStyleKind, name: &str) -> TableOperation {
    TableOperation::StyleSetCurrent { kind, name: name.into() }
}

#[test]
fn text_and_dimension_styles_are_changed_and_undone() {
    let (words, sizes) = (TableStyleKind::Text, TableStyleKind::Dim);
    let mut app = new_app();
    {
        let mut host: Session = HostSession::new(&mut app, 0);
        let mut title = TextStyleConfig::named("Title");
        title.height = Some(num(5.0));
        title.width_factor = Some(num(0.8));
        title.oblique_angle = Some(num(15f64.to_radians()));
        title.font_file = Some("romans".into());
        title.big_font_file = Some("bigfont".into());
        title.backward = Some(true);
        title.annotative = Some(true);
        let title_handle = host.table_operation(text(title, true)).unwrap();
        let mut notes = TextStyleConfig::named("Notes");
        notes.font_file = Some("arial.ttf".into());
        host.table_operation(text(notes, true)).unwrap();
        let mut taller = TextStyleConfig::named("Title");
        taller.height = Some(num(6.0));
        taller.upside_down = Some(true);
        assert_eq!(host.table_operation(text(taller, false)), Ok(title_handle));
        host.table_operation(dim(
            "Metric",
            None,
            r#"{"dimscale":2,"dimtxt":3.5,"dimasz":2.5,"dimtxsty":"Title"}"#,
        ))
        .unwrap();
        host.table_operation(dim("Metric2", Some("Metric"), r#"{"dimtxt":4}"#)).unwrap();
        host.table_operation(change("Metric", r#"{"dimscale":3}"#)).unwrap();
        host.table_operation(style_rename(words, "Notes", "Remarks")).unwrap();
        host.table_operation(style_rename(words, "Title", "Heading")).unwrap();

        refused(
            &mut host,
            text(TextStyleConfig::named("heading"), true),
            "text style \"heading\" already exists",
        );
        refused(
            &mut host,
            text(TextStyleConfig::named("a|b"), true),
            "a text style name cannot contain '|'",
        );
        let unnamed = || TextStyleConfig::named("T1");
        refused(
            &mut host,
            text(TextStyleConfig { height: Some(num(-1.0)), ..unnamed() }, true),
            "text style height must be finite and not negative (0 = variable)",
        );
        refused(
            &mut host,
            text(TextStyleConfig { width_factor: Some(num(0.0)), ..unnamed() }, true),
            "text style width factor must be greater than 0 and at most 100",
        );
        refused(
            &mut host,
            text(
                TextStyleConfig { oblique_angle: Some(num(89f64.to_radians())), ..unnamed() },
                true,
            ),
            "text style oblique angle must be within 85 degrees either way",
        );
        refused(
            &mut host,
            text(TextStyleConfig { font_file: Some("".into()), ..unnamed() }, true),
            "a text style needs a font file or a TrueType font",
        );
        refused(
            &mut host,
            text(TextStyleConfig { big_font_file: Some("b\u{1}".into()), ..unnamed() }, true),
            "big font file must be text of at most 255 characters",
        );
        let mut missing = TextStyleConfig::named("Nope");
        missing.height = Some(num(1.0));
        refused(&mut host, text(missing, false), "text style \"Nope\" does not exist");
        refused(
            &mut host,
            text(TextStyleConfig::named("Heading"), false),
            "no text style properties to change",
        );
        refused(
            &mut host,
            style_rename(words, "Standard", "Std2"),
            "the Standard style cannot be renamed",
        );
        refused(
            &mut host,
            style_rename(words, "Heading", "HEADING"),
            "the new style name matches the current one (a case-only change is not supported)",
        );
        refused(
            &mut host,
            style_rename(words, "Remarks", "heading"),
            "style \"heading\" already exists",
        );
        refused(
            &mut host,
            style_delete(words, "Standard"),
            "the Standard style cannot be deleted",
        );
        refused(
            &mut host,
            style_delete(words, "Heading"),
            "style \"Heading\" is current or still in use",
        );
        refused(
            &mut host,
            style_current(words, "Nope"),
            "text style \"Nope\" does not exist",
        );
        refused(
            &mut host,
            dim("metric", None, "{}"),
            "dimension style \"metric\" already exists",
        );
        refused(
            &mut host,
            dim("D7", Some("Nope"), "{}"),
            "dimension style \"Nope\" does not exist",
        );
        refused(
            &mut host,
            style_delete(sizes, "Standard"),
            "the Standard style cannot be deleted",
        );
        refused(
            &mut host,
            change("Nope", r#"{"dimscale":2}"#),
            "dimension style \"Nope\" does not exist",
        );
        for (properties, message) in [
            (r#"{"dimbogus":1}"#, "unknown dimension style property \"dimbogus\""),
            (
                r#"{"dimtxsty_handle":5}"#,
                "dimension style property \"dimtxsty_handle\" is managed by the host",
            ),
            (r#"{"name":"X"}"#, "dimension style property \"name\" is managed by the host"),
            (
                r#"{"xref_x":1}"#,
                "dimension style property \"xref_x\" is managed by the host",
            ),
            (
                r#"{"dimscale":"big"}"#,
                "invalid dimension style value: invalid type: string \"big\", expected f64",
            ),
            (r#"{"dimscale":0}"#, "dimscale must be greater than zero"),
            (r#"{"dimtxt":-1}"#, "dimtxt (text height) must be greater than zero"),
            (r#"{"dimasz":-1}"#, "dimasz (arrow size) cannot be negative"),
            (
                r#"{"dimtxsty":"Nope"}"#,
                "dimtxsty \"Nope\" is not a text style in this drawing",
            ),
            (r#"[1]"#, "dimension style properties must be an object"),
            (
                r#"{"#,
                "dimension style properties are not valid JSON: EOF while parsing an object at \
                 line 1 column 1",
            ),
        ] {
            refused(&mut host, dim("D1", None, properties), message);
            refused(&mut host, change("Metric", properties), message);
        }

        let document = host.document();
        assert!(document.get_text_style("Title").is_none());
        assert!(document.get_text_style("Notes").is_none());
        let heading = document.get_text_style("Heading").unwrap();
        assert_eq!(heading.handle, title_handle);
        assert_eq!((heading.height, heading.width_factor), (num(6.0), num(0.8)));
        assert_eq!(heading.oblique_angle, num(15f64.to_radians()));
        assert_eq!(heading.font_file, "romans");
        assert_eq!(heading.big_font_file, "bigfont");
        assert!(heading.backward && heading.upside_down && heading.annotative);
        assert_eq!(document.get_text_style("remarks").unwrap().font_file, "arial.ttf");
        let metric = document.get_dim_style("Metric").unwrap();
        assert_eq!(
            (metric.dimscale, metric.dimtxt, metric.dimasz),
            (num(3.0), num(3.5), num(2.5))
        );
        assert_eq!(metric.dimtxsty, "Heading");
        assert_eq!(metric.dimtxsty_handle, title_handle);
        let copy = document.get_dim_style("Metric2").unwrap();
        assert_eq!((copy.dimscale, copy.dimtxt), (num(2.0), num(4.0)));

        host.table_operation(style_current(words, "remarks")).unwrap();
        host.table_operation(style_current(sizes, "Metric2")).unwrap();
        assert_eq!(host.app.ribbon.active_text_style, "Remarks");
        assert_eq!(host.app.ribbon.active_dim_style, "Metric2");
        refused(
            &mut host,
            style_delete(words, "Remarks"),
            "style \"Remarks\" is current or still in use",
        );
        refused(
            &mut host,
            style_delete(sizes, "Metric2"),
            "style \"Metric2\" is current or still in use",
        );
        host.table_operation(style_current(words, "Standard")).unwrap();
        host.table_operation(style_current(sizes, "Standard")).unwrap();
        host.table_operation(style_delete(words, "Remarks")).unwrap();
        host.table_operation(style_delete(sizes, "Metric2")).unwrap();
        host.table_operation(style_delete(sizes, "Metric")).unwrap();
        host.table_operation(style_delete(words, "Heading")).unwrap();
        let document = host.document();
        for name in ["Heading", "Remarks"] {
            assert!(document.get_text_style(name).is_none(), "{name}");
        }
        for name in ["Metric", "Metric2"] {
            assert!(document.get_dim_style(name).is_none(), "{name}");
        }
        assert_eq!(document.header.current_text_style_name, "Standard");
        assert_eq!(document.header.current_dimstyle_name, "Standard");
    }
    app.tabs[0].undo_steps(4);
    let document = &app.tabs[0].scene.document;
    assert!(document.get_text_style("Heading").is_some());
    assert!(document.get_text_style("Remarks").is_some());
    assert!(document.get_dim_style("Metric").is_some());
    assert!(document.get_dim_style("Metric2").is_some());
}

#[test]
fn a_style_that_is_found_as_asked_is_not_recorded() {
    let mut app = new_app();
    let mut host: Session = HostSession::new(&mut app, 0);
    let standard = host.document().get_text_style("Standard").unwrap().handle;
    let mut same = TextStyleConfig::named("standard");
    same.backward = Some(false);
    assert_eq!(host.table_operation(text(same, false)), Ok(standard));
    let dims = host.document().get_dim_style("Standard").unwrap().handle;
    assert_eq!(host.table_operation(change("standard", "{}")), Ok(dims));
    assert_eq!(host.app.tabs[0].history.undo_stack.len(), 0);
    assert!(!host.app.tabs[0].dirty);
}

#[test]
fn the_two_zeros_are_the_same_value() {
    let mut app = new_app();
    {
        let mut host: Session = HostSession::new(&mut app, 0);
        host.table_operation(dim("Metric", None, r#"{"dimexo":0.0}"#)).unwrap();
        host.table_operation(change("Metric", r#"{"dimexo":-0.0}"#)).unwrap();
        assert_eq!(host.app.tabs[0].history.undo_stack.len(), 1);
        host.table_operation(change("Metric", r#"{"dimexo":0.5}"#)).unwrap();
        assert_eq!(host.app.tabs[0].history.undo_stack.len(), 2);
    }
}

#[test]
fn layer_names_in_extended_data_follow_a_rename() {
    let mut app = new_app();
    let mut host: Session = HostSession::new(&mut app, 0);
    host.table_operation(create(LayerConfig::named("Walls"))).unwrap();
    let handle = host.add_entity(line("0"));
    let values = vec![
        XDataValue::LayerName("WALLS".into()),
        XDataValue::String("Walls".into()),
        XDataValue::LayerName("0".into()),
    ];
    assert!(host.write_record(
        handle,
        ExtendedDataRecord { application_name: "APP".into(), values: Arc::new(values) },
    ));
    host.table_operation(rename("Walls", "Structure")).unwrap();
    assert!(host.document().get_layer("Walls").is_none());
    assert!(host.document().get_layer("structure").is_some());
    let record = host.read_record(handle, "APP").unwrap();
    assert!(matches!(&record.values[0], XDataValue::LayerName(name) if name == "Structure"));
    assert!(matches!(&record.values[1], XDataValue::String(text) if text == "Walls"));
    assert!(matches!(&record.values[2], XDataValue::LayerName(name) if name == "0"));
}

#[test]
fn texts_follow_the_rename_of_their_style() {
    let mut app = new_app();
    let mut host: Session = HostSession::new(&mut app, 0);
    host.table_operation(text(
        TextStyleConfig { backward: Some(true), ..TextStyleConfig::named("Notes") },
        true,
    ))
    .unwrap();
    host.add_entity(entity(
        "0",
        EntityData::Text(Arc::new(StyledText { style_name: "NOTES".into() })),
    ));
    refused(
        &mut host,
        style_delete(TableStyleKind::Text, "Notes"),
        "style \"Notes\" is current or still in use",
    );
    host.table_operation(style_rename(TableStyleKind::Text, "Notes", "Remarks")).unwrap();
    let EntityData::Text(written) = &host.document().entities[0].data else {
        panic!("the text is gone");
    };
    assert_eq!(written.style_name, "Remarks");
}

/// A block reference that stores one attribute.
fn tagged_reference(layer: &str, text_style: &str) -> Scripted {
    let attribute = AttributeRecord {
        common: line(layer).entity.common,
        value: Arc::new(AttributeEntity {
            text: AttributeText {
                tag: "ROOM".into(),
                insertion_point: at(0.0, 0.0, 0.0),
                alignment_point: at(0.0, 0.0, 0.0),
                normal: at(0.0, 0.0, 1.0),
                height: num(2.5),
                rotation: num(0.0),
                width_factor: num(1.0),
                oblique_angle: num(0.0),
                text_style: text_style.into(),
                field_length: 0,
                line_count: 1,
                embedded_mtext: None,
            },
            value: "101".into(),
            attdef_handle: Handle { value: 0 },
        }),
        record: Arc::new(Encoded::none()),
    };
    entity(
        "0",
        EntityData::Insert(Arc::new(Insert {
            block_name: "DOOR".into(),
            attributes: Arc::new(vec![attribute]),
            view_rep_handle: None,
            seqend_handle: None,
            insert_point: at(0.0, 0.0, 0.0),
            normal: at(0.0, 0.0, 1.0),
            x_scale: num(1.0),
            y_scale: num(1.0),
            z_scale: num(1.0),
            rotation: num(0.0),
            column_spacing: num(0.0),
            row_spacing: num(0.0),
            column_count: 1,
            row_count: 1,
        })),
    )
}

#[test]
fn stored_attributes_follow_renames() {
    let mut app = new_app();
    let mut host: Session = HostSession::new(&mut app, 0);
    host.table_operation(text(
        TextStyleConfig { backward: Some(true), ..TextStyleConfig::named("Notes") },
        true,
    ))
    .unwrap();
    host.table_operation(create(LayerConfig::named("Walls"))).unwrap();
    host.add_entity(tagged_reference("WALLS", "notes"));
    refused(
        &mut host,
        style_delete(TableStyleKind::Text, "Notes"),
        "style \"Notes\" is current or still in use",
    );
    host.table_operation(style_rename(TableStyleKind::Text, "Notes", "Remarks")).unwrap();
    host.table_operation(rename("Walls", "Structure")).unwrap();
    let reference = &host.document().entities[0];
    assert_eq!(reference.common.layer, "0");
    let EntityData::Insert(insert) = &reference.data else {
        panic!("the block reference is gone");
    };
    assert_eq!(insert.block_name, "DOOR");
    assert_eq!(insert.attributes.len(), 1);
    assert_eq!(insert.attributes[0].common.layer, "Structure");
    assert_eq!(insert.attributes[0].value.text.text_style, "Remarks");
    assert_eq!(insert.attributes[0].value.value, "101");
}

#[test]
fn styles_belong_to_the_active_drawing() {
    let mut app = new_app();
    app.active_tab = 1;
    let mut host: Session = HostSession::new(&mut app, 0);
    refused(
        &mut host,
        style_delete(TableStyleKind::Text, "Standard"),
        "style operations act on the active document; switch to it first",
    );
    assert!(host.table_operation(create(LayerConfig::named("Free"))).is_ok());
}

#[test]
fn a_text_style_takes_what_it_is_asked_for() {
    let mut style = TextStyle::new("Fine");
    let mut config = TextStyleConfig::named("Fine");
    config.vertical = Some(true);
    config.true_type_font = Some("Arial".into());
    config.width_factor = Some(num(100.0));
    config.oblique_angle = Some(num(-85f64.to_radians()));
    apply_text_style_config(&mut style, &config).unwrap();
    assert!(style.is_vertical);
    assert_eq!(style.true_type_font, "Arial");
    assert_eq!(style.width_factor, num(100.0));
    let mut config = TextStyleConfig::named("Fine");
    config.width_factor = Some(num(100.5));
    assert!(apply_text_style_config(&mut style, &config).is_err());
    assert_eq!(style.width_factor, num(100.0));
}

#[test]
fn properties_replace_those_with_the_same_key() {
    let property =
        |key: &str, value: &str| Property { key: key.into(), value: value.into() };
    let base = vec![property("dimscale", "1.0"), property("dimtxt", "2.5")];
    let merged = merge_properties(&base, &vec![property("dimtxt", "4")]).unwrap();
    assert_eq!(write_properties(&merged), r#"{"dimscale":1.0,"dimtxt":4}"#);
    assert!(merge_properties(&base, &vec![property("bogus", "4")]).is_err());
}

#[test]
fn a_dimension_style_is_read_back_from_its_properties() {
    let mut app = new_app();
    let host: Session = HostSession::new(&mut app, 0);
    let base = DimStyle::new("Plan");
    assert_eq!(base.name, "Plan");
    assert_eq!(base.dimscale, num(1.0));
    let style = apply_dim_style_json(host.document(), &base, r#"{"dimasz":0.25}"#).unwrap();
    assert_eq!((style.dimasz, style.dimscale), (num(0.25), num(1.0)));
    assert_eq!(style.name, "Plan");
    let again = apply_dim_style_json(host.document(), &style, "{}").unwrap();
    assert_eq!(again.dimasz, num(0.25));
}
