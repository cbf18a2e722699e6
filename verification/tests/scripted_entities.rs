//! What the host does with the entities that scripts hand it.

use std::sync::Arc;

use ocs_plugin_host::binding::bind_canvas_entity_references;
use ocs_plugin_host::command::{
    guarded_step, plugin_step_to_result, CmdResult, CommandStep, PluginProcessInteractiveAdapter,
};
use ocs_plugin_host::document::{CadDocument, ObjectType};
use ocs_plugin_host::entities::{
    AttributeDefinition, AttributeEntity, AttributeRecord, AttributeText, Clip, Encoded,
    EntityCommon, EntityData, EntityType, ExtendedData, ExtendedDataRecord, Insert, MLine,
    MLineSegment, MLineVertex, Point, RasterImage, RawRecord, SectionSymbol, SectionSymbolPoint, Shape, Spline, Tolerance, Viewport, XDataValue,
};
use ocs_plugin_host::geometry::{Handle, Vector2, Vector3};
use ocs_plugin_host::images::ImageFile;
use ocs_plugin_host::layers::LayerConfig;
use ocs_plugin_host::mutation_rules::patch_canvas_layer;
use ocs_plugin_host::normalize::{Derived, VertexCut};
use ocs_plugin_host::records::{BlockRecord, DimStyle, TextStyle};
use ocs_plugin_host::scalar::Scalar;
use ocs_plugin_host::scripting::Scripted;
use ocs_plugin_host::session::{HostSession, HostSettingValue, SharedView};
use ocs_plugin_host::studio::{HostEvent, Level, OpenCADStudio};

type Session<'a> = HostSession<'a, u8, ()>;

fn num(value: f64) -> Scalar {
    Scalar { bits: value.to_bits() }
}

fn at(x: f64, y: f64, z: f64) -> Vector3 {
    Vector3 { x: num(x), y: num(y), z: num(z), length: num(x.hypot(y).hypot(z)) }
}

fn new_app() -> OpenCADStudio<u8, ()> {
    OpenCADStudio::new(Vec::new())
}

fn entity(data: EntityData) -> EntityType {
    EntityType {
        common: EntityCommon {
            handle: Handle { value: 0 },
            layer: "0".into(),
            owner_handle: Handle { value: 0 },
            on_paper: false,
            look: Arc::new(Encoded::none()),
            extended_data: Arc::new(ExtendedData { records: Vec::new(), raw_dwg_eed: Vec::new() }),
        },
        data,
        record: Arc::new(Encoded::none()),
    }
}

fn shown(bytes: &[u8]) -> Arc<Encoded> {
    Arc::new(Encoded { numbers: Vec::new(), rest: bytes.to_vec() })
}

fn point(x: f64) -> EntityType {
    entity(EntityData::Point(Point { location: at(x, 0.0, 0.0) }))
}

fn plain(entity: EntityType) -> Scripted {
    Scripted { entity, derived: Derived::Nothing, file: Err("no file".into()) }
}

fn viewport(owner: u64, scale: f64) -> Scripted {
    let mut value = entity(EntityData::Viewport(Viewport { id: 0, custom_scale: num(1.0) }));
    value.common.owner_handle = Handle { value: owner };
    Scripted { entity: value, derived: Derived::Scale(num(scale)), file: Err(String::new()) }
}

fn viewport_of(host: &Session<'_>, handle: Handle) -> Viewport {
    match host.document().get_entity(handle).map(|found| &found.data) {
        Some(EntityData::Viewport(value)) => *value,
        _ => panic!("the viewport is gone"),
    }
}

#[test]
fn viewports_are_numbered_by_layout_and_scaled() {
    let mut app = new_app();
    let mut host: Session = HostSession::new(&mut app, 0);
    let first = host.add_entity(viewport(0x17, 0.5));
    let second = host.add_entity(viewport(0x17, 2.0));
    let elsewhere = host.add_entity(viewport(0x18, 4.0));
    assert_eq!(viewport_of(&host, first), Viewport { id: 2, custom_scale: num(0.5) });
    assert_eq!(viewport_of(&host, second), Viewport { id: 3, custom_scale: num(2.0) });
    assert_eq!(viewport_of(&host, elsewhere).id, 2);
    // An edit keeps the id and takes the scale anew.
    let edited = host.document().get_entity(first).unwrap().copy();
    let rescaled =
        Scripted { entity: edited, derived: Derived::Scale(num(0.25)), file: Err(String::new()) };
    assert!(host.update_entity(rescaled));
    assert_eq!(viewport_of(&host, first), Viewport { id: 2, custom_scale: num(0.25) });
}

fn section(points: &[(f64, f64, &str)]) -> EntityType {
    entity(EntityData::SectionSymbol(Arc::new(SectionSymbol {
        points: Arc::new(
            points
                .iter()
                .map(|(x, y, label)| SectionSymbolPoint {
                    point: at(*x, *y, 0.0),
                    bulge: num(0.0),
                    label: (*label).into(),
                    label_offset: at(0.0, x + 1.0, 0.0),
                    raw_flag_280: 0,
                })
                .collect(),
        ),
        raw_point_count_90: 0,
        raw_point_record_count: 0,
        end_a: Vector2 { x: num(0.0), y: num(0.0) },
        end_b: Vector2 { x: num(0.0), y: num(0.0) },
        tick_a: num(0.0),
        tick_b: num(0.0),
        label: "old".into(),
    })))
}

#[test]
fn a_section_symbol_follows_its_points() {
    let mut app = new_app();
    let mut host: Session = HostSession::new(&mut app, 0);
    let handle = host.add_entity(plain(section(&[(1.0, 2.0, ""), (3.0, 4.0, "B")])));
    let EntityData::SectionSymbol(symbol) =
        &host.document().get_entity(handle).unwrap().data
    else {
        panic!("the symbol is gone");
    };
    assert_eq!((symbol.raw_point_count_90, symbol.raw_point_record_count), (2, 2));
    assert_eq!(symbol.end_a, Vector2 { x: num(1.0), y: num(2.0) });
    assert_eq!(symbol.end_b, Vector2 { x: num(3.0), y: num(4.0) });
    assert_eq!((symbol.tick_a, symbol.tick_b), (num(2.0), num(4.0)));
    assert_eq!(symbol.label, "B");
    // With its points untouched the symbol keeps what it has.
    let mut edited = host.document().get_entity(handle).unwrap().copy();
    if let EntityData::SectionSymbol(value) = &mut edited.data {
        Arc::make_mut(value).label = "C".into();
    }
    assert!(host.update_entity(plain(edited)));
    assert!(matches!(
        &host.document().get_entity(handle).unwrap().data,
        EntityData::SectionSymbol(symbol) if symbol.label == "C"
    ));
}

#[test]
fn a_spline_is_rational_where_it_has_weights() {
    let mut app = new_app();
    let mut host: Session = HostSession::new(&mut app, 0);
    for (weights, rational) in [(vec![], false), (vec![num(1.0), num(2.0)], true)] {
        let handle = host.add_entity(plain(entity(EntityData::Spline(Arc::new(Spline {
            rational: !rational,
            weights: Arc::new(weights),
        })))));
        assert!(matches!(
            &host.document().get_entity(handle).unwrap().data,
            EntityData::Spline(spline) if spline.rational == rational
        ));
    }
}

#[test]
fn what_the_engine_completes_replaces_the_fields() {
    let mut app = new_app();
    let mut host: Session = HostSession::new(&mut app, 0);
    let helix = Scripted {
        entity: entity(EntityData::Helix),
        derived: Derived::Record(shown(&[1, 2, 3])),
        file: Err(String::new()),
    };
    let handle = host.add_entity(helix);
    assert_eq!(host.document().get_entity(handle).unwrap().record.rest, vec![1, 2, 3]);
    let steps = host.app.events.len();
    let refused = Scripted {
        entity: entity(EntityData::Helix),
        derived: Derived::Refused("no turns".into()),
        file: Err(String::new()),
    };
    assert!(host.add_entity(refused).is_null());
    let mut gone = host.document().get_entity(handle).unwrap().copy();
    gone.record = Arc::new(Encoded::none());
    let refused = Scripted {
        entity: gone,
        derived: Derived::Refused("no turns".into()),
        file: Err(String::new()),
    };
    assert!(!host.update_entity(refused));
    assert_eq!(host.app.events.len(), steps);
}

fn image(path: &str, file: Result<ImageFile, String>) -> Scripted {
    Scripted {
        entity: entity(EntityData::RasterImage(Arc::new(RasterImage {
            file_path: path.into(),
            definition_handle: None,
            size: Vector2 { x: num(1.0), y: num(1.0) },
            clip: Clip::WholeImage,
        }))),
        derived: Derived::Nothing,
        file,
    }
}

fn read(stem: Option<&str>) -> Result<ImageFile, String> {
    Ok(ImageFile { width: 640, height: 480, stem: stem.map(str::to_owned) })
}

fn image_of(host: &Session<'_>, handle: Handle) -> Arc<RasterImage> {
    match host.document().get_entity(handle).map(|found| &found.data) {
        Some(EntityData::RasterImage(value)) => value.clone(),
        _ => panic!("the image is gone"),
    }
}

fn image_keys(host: &Session<'_>) -> Vec<(String, u64)> {
    let document = host.document();
    let root = document.get_dictionary(document.header.named_objects_dict_handle).unwrap();
    let listed = root.entries.get("acad_image_dict").unwrap();
    let images = document.get_dictionary(Handle { value: listed.value() }).unwrap();
    images.entries.entries.iter().map(|(key, handle)| (key.clone(), handle.value())).collect()
}

#[test]
fn an_image_file_is_defined_once() {
    let mut app = new_app();
    let mut host: Session = HostSession::new(&mut app, 0);
    let first = host.add_entity(image("a/plan.png", read(Some("plan"))));
    let again = host.add_entity(image("a/plan.png", read(Some("plan"))));
    let other = host.add_entity(image("b/PLAN.png", read(Some("PLAN"))));
    let unnamed = host.add_entity(image("c", read(None)));
    let definition = image_of(&host, first).definition_handle.unwrap();
    assert_eq!(image_of(&host, again).definition_handle, Some(definition));
    assert_eq!(
        image_of(&host, first).size,
        Vector2 { x: num(640.0), y: num(480.0) }
    );
    let second = image_of(&host, other).definition_handle.unwrap();
    assert_ne!(second, definition);
    assert!(matches!(
        host.document().get_object(definition),
        Some(ObjectType::ImageDefinition(found))
            if found.file_name == "a/plan.png" && found.width == 640 && found.height == 480
    ));
    let keys = image_keys(&host);
    assert_eq!(keys[0], ("plan".to_string(), definition.value));
    assert_eq!(keys[1], ("PLAN_2".to_string(), second.value));
    assert_eq!(keys.len(), 3);
    assert_eq!(keys[2].1, image_of(&host, unnamed).definition_handle.unwrap().value);
}

#[test]
fn an_unread_image_is_not_added() {
    let mut app = new_app();
    let mut host: Session = HostSession::new(&mut app, 0);
    let next = host.document().next_handle();
    assert!(host.add_entity(image("gone.png", Err("not found".into()))).is_null());
    assert_eq!((host.document().entities.len(), host.document().next_handle()), (0, next));
    // An image with a definition needs no file.
    let mut linked = image("gone.png", Err("not found".into()));
    if let EntityData::RasterImage(value) = &mut linked.entity.data {
        Arc::make_mut(value).definition_handle = Some(Handle { value: 0x40 });
    }
    let handle = host.add_entity(linked);
    assert_eq!(image_of(&host, handle).definition_handle, Some(Handle { value: 0x40 }));
    // A batch takes such an image as it came.
    let handles = host.add_entities(vec![
        image("gone.png", Err("not found".into())),
        plain(point(1.0)),
    ]);
    assert_eq!(image_of(&host, handles[0]).definition_handle, None);
    assert_eq!(host.document().entities.len(), 3);
}

fn tag(tag: &str) -> AttributeText {
    AttributeText {
        tag: tag.into(),
        insertion_point: at(0.0, 0.0, 0.0),
        alignment_point: at(0.0, 0.0, 0.0),
        normal: at(0.0, 0.0, 1.0),
        height: num(2.5),
        rotation: num(0.0),
        width_factor: num(1.0),
        oblique_angle: num(0.0),
        text_style: "Standard".into(),
        field_length: 0,
        line_count: 1,
        embedded_mtext: None,
    }
}

fn attribute(owner: Handle, value: &str) -> EntityType {
    let mut attribute = entity(EntityData::AttributeEntity(Arc::new(AttributeEntity {
        text: tag("NO"),
        value: value.into(),
        attdef_handle: Handle { value: 0 },
    })));
    attribute.common.owner_handle = owner;
    attribute
}

fn insert() -> EntityType {
    entity(EntityData::Insert(Arc::new(Insert {
        block_name: "DOOR".into(),
        attributes: Arc::new(Vec::new()),
        view_rep_handle: None,
        seqend_handle: None,
        insert_point: at(0.0, 0.0, 0.0),
        normal: at(0.0, 0.0, 1.0),
        x_scale: num(1.0),
        y_scale: num(1.0),
        z_scale: num(1.0),
        rotation: num(0.0),
        column_spacing: num(0.0),
        row_spacing: num(0.0),
        column_count: 1,
        row_count: 1,
    })))
}

#[test]
fn an_attribute_lives_in_its_block_reference() {
    let mut app = new_app();
    let mut host: Session = HostSession::new(&mut app, 0);
    assert!(host.add_entity(plain(attribute(Handle { value: 0x99 }, "1"))).is_null());
    let owner = host.add_entity(plain(insert()));
    let first = host.add_entity(plain(attribute(owner, "1")));
    let second = host.add_entity(plain(attribute(owner, "2")));
    assert_ne!(first, second);
    let mut twin = attribute(owner, "3");
    twin.common.handle = first;
    assert!(host.add_entity(plain(twin)).is_null());
    let mut changed = attribute(owner, "4");
    changed.common.handle = second;
    assert!(host.update_entity(plain(changed)));
    let value = |host: &Session<'_>, handle: Handle| {
        host.document().nested_attribute(handle).map(|found| found.value.value.clone())
    };
    assert_eq!(value(&host, first), Some("1".into()));
    assert_eq!(value(&host, second), Some("4".into()));
    assert!(host.remove_entity(first));
    assert_eq!(value(&host, first), None);
    assert_eq!(value(&host, second), Some("4".into()));
}

#[test]
fn a_batch_that_cannot_be_changes_nothing() {
    let mut app = new_app();
    let mut host: Session = HostSession::new(&mut app, 0);
    let handle = host.add_entity(plain(point(1.0)));
    let locked = {
        let mut entity = point(2.0);
        entity.common.layer = "Locked".into();
        host.add_entity(plain(entity))
    };
    let mut lock = LayerConfig::named("Locked");
    lock.locked = Some(true);
    assert!(host.modify_layer(lock));
    let copy = |host: &Session<'_>, handle: Handle| {
        host.document().get_entity(handle).unwrap().copy()
    };
    let moved = {
        let mut entity = copy(&host, handle);
        entity.data = EntityData::Point(Point { location: at(5.0, 0.0, 0.0) });
        entity
    };
    let mut missing = moved.copy();
    missing.common.handle = Handle { value: 0x777 };
    let mut other_kind = moved.copy();
    other_kind.data = EntityData::Ellipse;
    let mut unlayered = moved.copy();
    unlayered.common.layer = " ".into();
    let batches = vec![
        vec![plain(moved.copy()), plain(moved.copy())],
        vec![plain(moved.copy()), plain(missing)],
        vec![plain(other_kind)],
        vec![plain(moved.copy()), plain(copy(&host, locked))],
        vec![plain(unlayered)],
    ];
    let told = host.app.events.len();
    for batch in batches {
        assert!(host.update_entities_transaction("Move", batch).is_err());
        assert_eq!(copy(&host, handle).data.kind_of(), point(0.0).data.kind_of());
        assert!(matches!(&copy(&host, handle).data,
            EntityData::Point(found) if found.location.x == num(1.0)));
        assert_eq!(host.app.events.len(), told);
        assert_eq!(host.app.tabs[0].history.undo_stack.len(), 0);
    }
    assert!(host.update_entities_transaction(" ", vec![plain(moved.copy())]).is_err());
    // An empty batch does nothing.
    assert!(host.update_entities_transaction("Move", Vec::new()).is_ok());
    assert_eq!(host.app.events.len(), told);
    assert_eq!(host.app.tabs[0].history.undo_stack.len(), 0);
    assert!(host.update_entities_transaction("Move", vec![plain(moved)]).is_ok());
    assert_eq!(host.app.tabs[0].history.undo_stack.len(), 1);
    assert!(host.app.tabs[0].dirty);
}

#[test]
fn records_of_one_application_are_replaced_and_removed() {
    let mut app = new_app();
    let mut host: Session = HostSession::new(&mut app, 0);
    let handle = host.add_entity(plain(point(1.0)));
    let record = |name: &str, number: i16| ExtendedDataRecord {
        application_name: name.into(),
        values: Arc::new(vec![XDataValue::Integer16(number)]),
    };
    assert!(host.write_record(handle, record("ONE", 1)));
    assert!(host.write_record(handle, record("TWO", 2)));
    assert!(host.write_record(handle, record("ONE", 3)));
    let values = |host: &Session<'_>, name: &str| {
        host.read_record(handle, name).map(|found| match found.values[0] {
            XDataValue::Integer16(number) => number,
            _ => 0,
        })
    };
    assert_eq!((values(&host, "ONE"), values(&host, "TWO")), (Some(3), Some(2)));
    assert_eq!(values(&host, "THREE"), None);
    // The application stays registered, under any case of its name.
    assert!(host.document().has_app_id("one") && !host.document().has_app_id("THREE"));
    assert!(host.remove_record(handle, "ONE"));
    assert_eq!((values(&host, "ONE"), values(&host, "TWO")), (None, Some(2)));
    // Data that was read from a file and never decoded goes as well.
    let application = host.document().get_app_id("TWO").unwrap();
    let at: usize = host.document().entities.len() - 1;
    let mut data = ExtendedData { records: Vec::new(), raw_dwg_eed: Vec::new() };
    data.raw_dwg_eed.push(RawRecord { application, bytes: Arc::new(vec![1]) });
    data.raw_dwg_eed.push(RawRecord { application: 0xfff, bytes: Arc::new(vec![2]) });
    host.document_mut().entities[at].common.extended_data = Arc::new(data);
    assert!(host.remove_record(handle, "TWO"));
    let left = &host.document().entities[at].common.extended_data;
    assert_eq!(left.raw_dwg_eed.len(), 1);
    assert_eq!(left.raw_dwg_eed[0].application, 0xfff);
    assert!(!host.write_record(Handle { value: 0x777 }, record("LATE", 1)));
    assert!(!host.remove_record(Handle { value: 0x777 }, "TWO"));
}

#[test]
fn plugins_keep_their_own_state() {
    let mut app = new_app();
    let mut host: Session = HostSession::new(&mut app, 0);
    assert!(host.plugin_state_any_mut("a").is_none());
    *host.ensure_plugin_state_any("a", || 1) += 1;
    *host.ensure_plugin_state_any("b", || 10) += 1;
    assert_eq!(*host.ensure_plugin_state_any("a", || 50), 2);
    assert_eq!(host.plugin_state_any("b"), Some(&11));
    assert_eq!(host.plugin_state_any("A"), None);
}

#[test]
fn the_session_reports_on_its_drawing() {
    let mut app = new_app();
    app.tabs[0].current_path = Some("plan.dwg".into());
    let mut host: Session = HostSession::new(&mut app, 0);
    assert_eq!((host.tab_index(), host.tab_id()), (0, 1));
    assert_eq!(host.document_path(1), Some("plan.dwg".into()));
    assert_eq!(host.document_path(2), None);
    host.set_dirty();
    assert!(host.app.tabs[0].dirty);
    host.push_info("one");
    host.push_output("two");
    host.push_error("three");
    let said: Vec<(Level, &str)> =
        host.app.command_line.iter().map(|entry| (entry.level, entry.text.as_str())).collect();
    assert_eq!(
        said,
        vec![(Level::Info, "one"), (Level::Output, "two"), (Level::Error, "three")]
    );
    let epoch = host.app.tabs[0].scene.geometry_epoch;
    host.bump_geometry();
    assert_eq!(host.app.tabs[0].scene.geometry_epoch, epoch + 1);
    host.app.tabs[0].scene.geometry_epoch = u64::MAX;
    host.bump_geometry();
    assert_eq!(host.app.tabs[0].scene.geometry_epoch, 0);
}

#[test]
fn a_shared_view_is_opened_once_and_announced() {
    let mut app = new_app();
    let mut host: Session = HostSession::new(&mut app, 0);
    assert!(host.document_view(None).is_none());
    let opened = SharedView { path: "/shared/one".into(), version: 1 };
    assert_eq!(host.document_view(Some(opened)).unwrap().path, "/shared/one");
    let other = SharedView { path: "/shared/two".into(), version: 1 };
    assert_eq!(host.document_view(Some(other)).unwrap().path, "/shared/one");
    host.view_published(7);
    assert_eq!(host.document_view(None).unwrap().version, 7);
    host.add_entity(plain(point(1.0)));
    assert!(host.app.events.iter().any(|event| matches!(event, HostEvent::SessionViewChanged(0))));
    let fresh = SharedView { path: "/shared/three".into(), version: 1 };
    assert!(host.document_view_v4(9, Some(fresh)).is_none());
    let fresh = SharedView { path: "/shared/three".into(), version: 1 };
    assert_eq!(host.document_view_v4(1, Some(fresh)).unwrap().path, "/shared/three");
    let told = host.app.events.len();
    host.close_document_view_v4(1);
    assert!(host.app.events.len() >= told);
}

#[test]
fn a_selection_is_reported_once() {
    let mut app = new_app();
    let mut host: Session = HostSession::new(&mut app, 0);
    let a = host.add_entity(plain(point(1.0)));
    let missing = Handle { value: 0x777 };
    assert_eq!(
        host.set_selection(&[a, missing]),
        Err(format!("entity {} does not exist", missing.show()))
    );
    assert_eq!(
        host.set_selection(&[a, a]),
        Err(format!("duplicate selected entity: {}", a.show()))
    );
    let told = host.app.events.len();
    host.set_selection(&[a]).unwrap();
    host.set_selection(&[a]).unwrap();
    assert_eq!(host.app.events.len(), told + 1);
    assert!(matches!(&host.app.events[told], HostEvent::SelectionChanged(1, found)
        if found == &vec![a]));
}

#[test]
fn settings_of_the_wrong_kind_are_refused() {
    let mut app = new_app();
    let mut host: Session = HostSession::new(&mut app, 0);
    assert!(host.system_variable("OSMODE").is_none());
    for (name, value, message) in [
        ("clayer", HostSettingValue::Number(num(1.0), Some(num(1.0))), "CLAYER: wrong value type"),
        ("snapang", HostSettingValue::Text("a".into()), "SNAPANG: wrong value type"),
        (
            "SNAPANG",
            HostSettingValue::Number(num(f64::NAN), None),
            "SNAPANG: finite number required",
        ),
        (
            "OSMODE",
            HostSettingValue::Text("a".into()),
            "unsupported system variable \"OSMODE\"",
        ),
        ("CLAYER", HostSettingValue::Text("no".into()), "layer \"no\" does not exist"),
    ] {
        assert_eq!(host.set_system_variable(name, value).err(), Some(message.to_string()));
    }
}

#[test]
fn undo_and_redo_step_through_the_history() {
    let mut app = new_app();
    {
        let mut host: Session = HostSession::new(&mut app, 0);
        host.push_undo("one");
        host.add_entity(plain(point(1.0)));
        host.push_undo("two");
        host.add_entity(plain(point(2.0)));
    }
    let tab = &mut app.tabs[0];
    tab.undo_steps(5);
    assert_eq!((tab.scene.document.entities.len(), tab.history.redo_stack.len()), (0, 2));
    tab.redo_steps(1);
    assert_eq!(tab.scene.document.entities.len(), 1);
    assert_eq!(tab.history.undo_stack[0].label, "one");
    tab.push_undo_snapshot("three");
    assert!(tab.history.redo_stack.is_empty());
}

#[test]
fn plugin_steps_become_requests() {
    assert!(matches!(plugin_step_to_result(CommandStep::NeedPoint), CmdResult::NeedPoint));
    assert!(matches!(plugin_step_to_result(CommandStep::Done), CmdResult::Cancel));
    assert!(matches!(plugin_step_to_result(CommandStep::Cancel), CmdResult::Cancel));
    assert!(matches!(
        plugin_step_to_result(CommandStep::Commit(point(1.0))),
        CmdResult::CommitEntity(_)
    ));
    // A command that fell over is cancelled.
    assert!(matches!(guarded_step(None), CmdResult::Cancel));
    let adapter = PluginProcessInteractiveAdapter::new(4, None, None);
    assert_eq!((adapter.command_id, adapter.needs_entity_pick()), (4, false));
    let adapter = PluginProcessInteractiveAdapter::new(5, Some("Pick".into()), Some(true));
    assert_eq!((adapter.prompt(), adapter.needs_entity_pick()), ("Pick".to_string(), true));
}

fn tolerance(style: &str, handle: Option<Handle>) -> EntityType {
    entity(EntityData::Tolerance(Arc::new(Tolerance {
        insertion_point: at(0.0, 0.0, 0.0),
        direction: at(1.0, 0.0, 0.0),
        normal: at(0.0, 0.0, 1.0),
        text: "%%v0.1".into(),
        dimension_style_name: style.into(),
        dimension_style_handle: handle,
        text_height: num(1.0),
        dimension_gap: num(1.0),
    })))
}

fn style_of(entity: &EntityType) -> (String, Option<Handle>) {
    match &entity.data {
        EntityData::Tolerance(value) => {
            (value.dimension_style_name.clone(), value.dimension_style_handle)
        }
        _ => panic!("the kind changed"),
    }
}

#[test]
fn names_are_bound_once() {
    let document = CadDocument::new();
    let standard = document.get_dim_style("Standard").unwrap().handle;
    let mut value = tolerance("standard", None);
    bind_canvas_entity_references(&document, &mut value).unwrap();
    assert_eq!(style_of(&value).1, Some(standard));
    let bound = style_of(&value);
    bind_canvas_entity_references(&document, &mut value).unwrap();
    assert_eq!(style_of(&value), bound);
    assert!(bind_canvas_entity_references(&document, &mut tolerance("Nope", None)).is_err());
}

#[test]
fn an_attribute_away_from_its_owner_stops_a_batch() {
    let mut app = new_app();
    let mut host: Session = HostSession::new(&mut app, 0);
    let owner = host.add_entity(plain(insert()));
    let other = host.add_entity(plain(insert()));
    let handle = host.add_entity(plain(attribute(owner, "1")));
    let mut edited = attribute(owner, "2");
    edited.common.handle = handle;
    let mut lost = attribute(other, "3");
    lost.common.handle = handle;
    assert_eq!(
        host.try_update_entities_transaction("Edit", vec![plain(lost)]),
        Some(Err(format!("entity {} changes owner", handle.show())))
    );
    let mut nameless = attribute(owner, "4");
    nameless.common.handle = Handle { value: 0 };
    assert_eq!(
        host.try_update_entities_transaction("Edit", vec![plain(nameless)]),
        Some(Err("null or duplicate entity handle: Handle(0)".to_string()))
    );
    assert_eq!(
        host.try_update_entities_transaction(" ", vec![plain(attribute(other, "5"))]),
        Some(Err("transaction label is empty".to_string()))
    );
    let missing = {
        let mut entity = point(1.0);
        entity.common.handle = Handle { value: 0x777 };
        entity
    };
    let refused = host.try_update_entities_transaction("Edit", vec![plain(missing)]);
    assert!(matches!(refused, Some(Err(_))));
    let nothing = host.try_update_entities_transaction("Edit", Vec::new());
    assert_eq!(nothing, Some(Ok(())));
    assert_eq!(host.app.tabs[0].history.undo_stack.len(), 0);
    assert_eq!(
        host.document().nested_attribute(handle).unwrap().value.value,
        "1"
    );
}

/// A block with one attribute definition. The result is the definition.
fn define_door(host: &mut Session) -> Handle {
    let handle = host.document_mut().allocate_handle();
    host.document_mut().block_records.push(BlockRecord {
        handle,
        name: "DOOR".into(),
        entity_handles: Arc::new(Vec::new()),
    });
    let mut definition = entity(EntityData::AttributeDefinition(Arc::new(AttributeDefinition {
        text: tag("NO"),
    })));
    definition.common.owner_handle = handle;
    host.document_mut().add_entity(definition)
}

#[test]
fn a_batch_without_a_place_for_an_attribute_has_no_result() {
    let mut app = new_app();
    let mut host: Session = HostSession::new(&mut app, 0);
    define_door(&mut host);
    let owner = host.add_entity(plain(insert()));
    let stray = match attribute(owner, "1").data {
        EntityData::AttributeEntity(value) => AttributeRecord {
            common: EntityCommon {
                handle: Handle { value: 0x500 },
                owner_handle: owner,
                ..entity(EntityData::Seqend).common
            },
            value,
            record: Arc::new(Encoded::none()),
        },
        _ => unreachable!(),
    };
    let mut holder = insert();
    if let EntityData::Insert(value) = &mut holder.data {
        Arc::make_mut(value).attributes = Arc::new(vec![stray]);
    }
    host.add_entity(plain(holder));
    let edited = host.document().host_model_entity(Handle { value: 0x500 }).unwrap();
    assert_eq!(host.try_update_entities_transaction("Edit", vec![plain(edited)]), None);
    assert_eq!(host.app.tabs[0].history.undo_stack.len(), 0);
}

#[test]
fn an_entity_whose_handles_were_never_filled_in_can_change_its_layer() {
    let mut app = new_app();
    let mut host: Session = HostSession::new(&mut app, 0);
    let definition = define_door(&mut host);
    let standard = host.document().get_dim_style("Standard").unwrap().handle;
    let style = host.document_mut().allocate_handle();
    let mut symbols = TextStyle::new("Symbols");
    symbols.handle = style;
    symbols.is_shape_file = true;
    symbols.font_file = "symbols.shx".into();
    host.document_mut().text_styles.push(symbols);

    let frame = host.add_entity(plain(tolerance("Standard", None)));
    let glyph = host.add_entity(plain(entity(EntityData::Shape(Arc::new(Shape {
        insertion_point: at(1.0, 2.0, 0.0),
        normal: at(0.0, 0.0, 1.0),
        size: num(2.0),
        shape_name: "ARROW".into(),
        shape_number: 1,
        rotation: num(0.5),
        relative_x_scale: num(1.0),
        oblique_angle: num(0.0),
        thickness: num(0.0),
        style_name: "Symbols".into(),
        style_handle: None,
    })))));
    let owner = host.add_entity(plain(insert()));
    let value = host.add_entity(plain(attribute(owner, "1")));

    for handle in [frame, glyph, value] {
        let entity = host.document().host_model_entity(handle).unwrap();
        let moved = patch_canvas_layer(&entity, "OTHER").unwrap();
        host.update_entities_transaction("Move", vec![plain(moved)]).unwrap();
        let stored = host.document().host_model_entity(handle).unwrap();
        assert_eq!(stored.common.layer, "OTHER");
        match &stored.data {
            EntityData::Tolerance(value) => {
                assert_eq!(value.dimension_style_handle, Some(standard));
            }
            EntityData::Shape(value) => assert_eq!(value.style_handle, Some(style)),
            EntityData::AttributeEntity(value) => assert_eq!(value.attdef_handle, definition),
            _ => panic!("the kind changed"),
        }
    }
    assert_eq!(host.app.tabs[0].history.undo_stack.len(), 3);
}

fn cut(direction: Vector3, miter: Vector3) -> VertexCut {
    VertexCut {
        direction,
        miter,
        segments: vec![
            MLineSegment { parameters: vec![num(0.5)], area_fill_parameters: Vec::new() },
            MLineSegment { parameters: vec![num(-0.5)], area_fill_parameters: Vec::new() },
        ],
    }
}

fn wall(style_handle: Option<Handle>) -> EntityType {
    let vertex = |x: f64| MLineVertex {
        position: at(x, 0.0, 0.0),
        direction: at(1.0, 0.0, 0.0),
        miter: at(0.0, 1.0, 0.0),
        segments: Vec::new(),
    };
    entity(EntityData::MLine(Arc::new(MLine {
        flags: 1,
        scale_factor: num(2.0),
        normal: at(0.0, 0.0, 1.0),
        style_name: "standard".into(),
        style_handle,
        vertices: Arc::new(vec![vertex(0.0), vertex(4.0)]),
    })))
}

/// A multiline that the engine cuts anew.
fn cut_wall(entity: EntityType) -> Scripted {
    let (along, across) = (at(0.0, 1.0, 0.0), at(-1.0, 0.0, 0.0));
    Scripted {
        entity,
        derived: Derived::Cuts(vec![cut(along, across), cut(along, across)], shown(&[4])),
        file: Err(String::new()),
    }
}

#[test]
fn a_multiline_is_bound_and_keeps_all_but_its_cuts() {
    let mut app = new_app();
    let mut host: Session = HostSession::new(&mut app, 0);
    for style_handle in [None, Some(Handle { value: 0 })] {
        let handle = host.add_entity(cut_wall(wall(style_handle)));
        let entity = host.document().get_entity(handle).unwrap();
        assert!(matches!(
            &entity.data,
            EntityData::MLine(value) if value.style_handle == style_handle
        ));
        let moved = patch_canvas_layer(entity, "OTHER").unwrap();
        host.update_entities_transaction("Move", vec![cut_wall(moved)]).unwrap();
        let stored = host.document().get_entity(handle).unwrap();
        assert_eq!(stored.common.layer, "OTHER");
        assert_eq!(stored.record.rest, vec![4]);
        let EntityData::MLine(value) = &stored.data else {
            panic!("the multiline is gone");
        };
        assert_eq!(value.style_handle, Some(Handle { value: 0x1a }));
        assert_eq!((value.style_name.as_str(), value.flags), ("standard", 1));
        assert_eq!((value.scale_factor, value.normal), (num(2.0), at(0.0, 0.0, 1.0)));
        let places: Vec<Vector3> = value.vertices.iter().map(|vertex| vertex.position).collect();
        assert_eq!(places, vec![at(0.0, 0.0, 0.0), at(4.0, 0.0, 0.0)]);
        for vertex in value.vertices.iter() {
            assert_eq!((vertex.direction, vertex.miter), (at(0.0, 1.0, 0.0), at(-1.0, 0.0, 0.0)));
            let parameters: Vec<Scalar> =
                vertex.segments.iter().map(|segment| segment.parameters[0]).collect();
            assert_eq!(parameters, vec![num(0.5), num(-0.5)]);
        }
    }
    // One cut for two vertices is no answer.
    let derived = Derived::Cuts(vec![cut(at(1.0, 0.0, 0.0), at(0.0, 1.0, 0.0))], shown(&[]));
    assert!(!derived.is_fit(&wall(None).data));
    assert!(!Derived::Nothing.is_fit(&wall(None).data));
    assert!(Derived::Refused("no style".into()).is_fit(&wall(None).data));
}

#[test]
fn an_attribute_without_its_owner_is_not_removed() {
    let mut app = new_app();
    let mut host: Session = HostSession::new(&mut app, 0);
    let orphan = match attribute(Handle { value: 0x777 }, "1").data {
        EntityData::AttributeEntity(value) => AttributeRecord {
            common: EntityCommon {
                handle: Handle { value: 0x500 },
                owner_handle: Handle { value: 0x777 },
                ..entity(EntityData::Seqend).common
            },
            value,
            record: Arc::new(Encoded::none()),
        },
        _ => unreachable!(),
    };
    let mut holder = insert();
    if let EntityData::Insert(value) = &mut holder.data {
        Arc::make_mut(value).attributes = Arc::new(vec![orphan]);
    }
    host.add_entity(plain(holder));
    assert!(!host.remove_entity(Handle { value: 0x500 }));
    assert!(host.document().host_model_entity(Handle { value: 0x500 }).is_some());
}

#[test]
fn a_handle_that_a_script_changes_is_read_only() {
    let mut app = new_app();
    let mut host: Session = HostSession::new(&mut app, 0);
    let standard = host.document().get_dim_style("Standard").unwrap().handle;
    let other = host.document_mut().allocate_handle();
    let mut style = DimStyle::new("Other");
    style.handle = other;
    host.document_mut().dim_styles.push(style);
    let frame = host.add_entity(plain(tolerance("Standard", Some(standard))));
    let mut changed = host.document().get_entity(frame).unwrap().copy();
    if let EntityData::Tolerance(value) = &mut changed.data {
        Arc::make_mut(value).dimension_style_handle = Some(other);
    }
    assert_eq!(
        host.update_entities_transaction("Edit", vec![plain(changed)]),
        Err(format!(
            "entity {}: Tolerance.dimension_style_handle is read-only",
            frame.show()
        ))
    );
}

#[test]
fn a_batch_stores_its_members_and_nothing_else() {
    let mut app = new_app();
    {
        let mut host: Session = HostSession::new(&mut app, 0);
        define_door(&mut host);
        let owner = host.add_entity(plain(insert()));
        let first = host.add_entity(plain(attribute(owner, "1")));
        let second = host.add_entity(plain(attribute(owner, "2")));
        let bystander = host.add_entity(plain(point(1.0)));
        let mut moved = host.document().get_entity(owner).unwrap().copy();
        if let EntityData::Insert(value) = &mut moved.data {
            Arc::make_mut(value).insert_point.x = num(9.0);
        }
        let mut edited = host.document().host_model_entity(first).unwrap();
        if let EntityData::AttributeEntity(value) = &mut edited.data {
            Arc::make_mut(value).value = "one".into();
        }
        host.update_entities_transaction("Edit", vec![plain(moved), plain(edited)]).unwrap();
        let EntityData::Insert(stored) = &host.document().get_entity(owner).unwrap().data else {
            panic!("the block reference is gone");
        };
        assert_eq!(stored.insert_point.x, num(9.0));
        assert_eq!(host.document().nested_attribute(first).unwrap().value.value, "one");
        assert_eq!(host.document().nested_attribute(second).unwrap().value.value, "2");
        let EntityData::Point(kept) = &host.document().get_entity(bystander).unwrap().data else {
            panic!("the point is gone");
        };
        assert_eq!(kept.location.x, num(1.0));

        assert!(host.remove_entity(first));
        assert!(host.document().host_model_entity(first).is_none());
        assert!(host.document().host_model_entity(second).is_some());
        assert!(!host.remove_entity(first));
    }
    assert!(app.tabs[0].dirty);
    assert_eq!(app.tabs[0].history.undo_stack.len(), 1);
}

#[test]
fn an_entity_for_the_sheet_goes_there() {
    let mut app = new_app();
    let mut host: Session = HostSession::new(&mut app, 0);
    let mut sheet = point(1.0);
    sheet.common.on_paper = true;
    let on_sheet = host.add_entity(plain(sheet));
    let in_model = host.add_entity(plain(point(2.0)));
    let document = host.document();
    assert_eq!(
        document.get_entity(on_sheet).unwrap().common.owner_handle,
        document.get_block("*Paper_Space").unwrap().handle
    );
    assert_eq!(
        document.get_entity(in_model).unwrap().common.owner_handle,
        document.get_block("*Model_Space").unwrap().handle
    );
}

#[test]
fn the_records_of_a_new_drawing_have_handles_of_their_own() {
    let document = CadDocument::new();
    let mut handles: Vec<u64> = Vec::new();
    handles.extend(document.layers.iter().map(|record| record.handle.value));
    handles.extend(document.text_styles.iter().map(|record| record.handle.value));
    handles.extend(document.dim_styles.iter().map(|record| record.handle.value));
    handles.extend(document.line_types.iter().map(|record| record.handle.value));
    handles.extend(document.block_records.iter().map(|record| record.handle.value));
    handles.extend(document.objects.iter().map(|record| record.handle.value));
    handles.push(document.get_app_id("ACAD").unwrap());
    let count = handles.len();
    handles.sort();
    handles.dedup();
    assert_eq!(handles.len(), count);
    assert!(handles.iter().all(|handle| 0 < *handle && *handle < document.next_handle()));
}

#[test]
fn an_application_keeps_its_handle() {
    let mut document = CadDocument::new();
    document.register_app_id("Survey", Handle { value: 0x50 });
    document.register_app_id("SURVEY", Handle { value: 0x51 });
    assert_eq!(document.get_app_id("survey"), Some(0x50));
    let next = document.next_handle();
    document.ensure_app_id("survey");
    assert_eq!(document.next_handle(), next);
    document.ensure_app_id("Other");
    assert_eq!(document.get_app_id("OTHER"), Some(next));
    assert!(document.has_app_id("acad"));
}
