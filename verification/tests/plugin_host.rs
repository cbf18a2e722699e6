//! A plugin's session with the host.

use std::any::Any;
use std::collections::HashSet;
use std::sync::Arc;

use ocs_plugin_host::attributes::find_attribute;
use ocs_plugin_host::command::{guarded_step, CommandStep};
use ocs_plugin_host::document::CadDocument;
use ocs_plugin_host::entities::{
    AttributeDefinition, AttributeEntity, AttributeText, Color, Encoded, EntityCommon,
    EntityData, EntityType, ExtendedData, ExtendedDataRecord, Insert, Kind, Leader,
    LeaderCreationType, MLine, Point, StyledText, XDataValue,
};
use ocs_plugin_host::geometry::{Handle, Vector3};
use ocs_plugin_host::layers::LayerConfig;
use ocs_plugin_host::mutation_rules::patch_canvas_layer;
use ocs_plugin_host::normalize::{Derived, VertexCut};
use ocs_plugin_host::records::{BlockRecord, LineWeight};
use ocs_plugin_host::scalar::Scalar;
use ocs_plugin_host::scripting::Scripted;
use ocs_plugin_host::session::{HostSession, HostSettingValue};
use ocs_plugin_host::studio::OpenCADStudio;

type State = Box<dyn Any + Send + Sync>;
type Studio = OpenCADStudio<State, PlacePoint>;
type Session<'a> = HostSession<'a, State, PlacePoint>;

fn num(value: f64) -> Scalar {
    Scalar { bits: value.to_bits() }
}

fn at(x: f64, y: f64, z: f64) -> Vector3 {
    Vector3 { x: num(x), y: num(y), z: num(z), length: num(x.hypot(y).hypot(z)) }
}

fn on_layer(layer: &str) -> EntityCommon {
    EntityCommon {
        handle: Handle { value: 0 },
        layer: layer.into(),
        owner_handle: Handle { value: 0 },
        on_paper: false,
        look: Arc::new(Encoded::none()),
        extended_data: Arc::new(ExtendedData { records: Vec::new(), raw_dwg_eed: Vec::new() }),
    }
}

fn entity(data: EntityData) -> EntityType {
    EntityType { common: on_layer("0"), data, record: Arc::new(Encoded::none()) }
}

fn point(x: f64, y: f64, z: f64) -> EntityType {
    entity(EntityData::Point(Point { location: at(x, y, z) }))
}

fn plain(entity: EntityType) -> Scripted {
    Scripted { entity, derived: Derived::Nothing, file: Err("no file".into()) }
}

/// A multiline that the engine leaves as it is.
fn settled(entity: EntityType) -> Scripted {
    let cuts = match &entity.data {
        EntityData::MLine(value) => value
            .vertices
            .iter()
            .map(|vertex| VertexCut {
                direction: vertex.direction,
                miter: vertex.miter,
                segments: vertex.segments.clone(),
            })
            .collect(),
        _ => panic!("only a multiline is cut"),
    };
    let derived = Derived::Cuts(cuts, entity.record.clone());
    Scripted { entity, derived, file: Err("no file".into()) }
}

fn new_app() -> Studio {
    OpenCADStudio::new(Vec::new())
}

fn location(document: &CadDocument, handle: Handle) -> Option<Scalar> {
    match document.get_entity(handle).map(|found| &found.data) {
        Some(EntityData::Point(point)) => Some(point.location.x),
        _ => None,
    }
}

fn move_to(entity: &mut EntityType, x: f64) {
    if let EntityData::Point(point) = &mut entity.data {
        point.location.x = num(x);
    }
}

fn record(name: &str, values: Vec<XDataValue>) -> ExtendedDataRecord {
    ExtendedDataRecord { application_name: name.into(), values: Arc::new(values) }
}

fn attribute_text(tag: &str) -> AttributeText {
    AttributeText {
        tag: tag.into(),
        insertion_point: at(0.0, 0.0, 0.0),
        alignment_point: at(0.0, 0.0, 0.0),
        normal: at(0.0, 0.0, 1.0),
        height: num(2.5),
        rotation: num(0.0),
        width_factor: num(1.0),
        oblique_angle: num(0.0),
        text_style: "Standard".into(),
        field_length: 0,
        line_count: 1,
        embedded_mtext: None,
    }
}

fn block_reference(name: &str, place: Vector3) -> EntityType {
    entity(EntityData::Insert(Arc::new(Insert {
        block_name: name.into(),
        attributes: Arc::new(Vec::new()),
        view_rep_handle: None,
        seqend_handle: None,
        insert_point: place,
        normal: at(0.0, 0.0, 1.0),
        x_scale: num(1.0),
        y_scale: num(1.0),
        z_scale: num(1.0),
        rotation: num(0.0),
        column_spacing: num(0.0),
        row_spacing: num(0.0),
        column_count: 1,
        row_count: 1,
    })))
}

fn default_leader() -> Leader {
    Leader {
        dimension_style: "Standard".into(),
        creation_type: LeaderCreationType::WithText,
        text_height: num(2.5),
        text_width: num(0.0),
        vertices: Arc::new(Vec::new()),
        annotation_handle: Handle { value: 0 },
        normal: at(0.0, 0.0, 1.0),
        horizontal_direction: at(1.0, 0.0, 0.0),
        block_offset: at(0.0, 0.0, 0.0),
        annotation_offset: at(0.0, 0.0, 0.0),
    }
}

#[test]
fn selection_query_is_live_and_replacement_is_validated() {
    let mut app = new_app();
    let mut host: Session = HostSession::new(&mut app, 0);
    let a = host.add_entity(plain(point(0.0, 0.0, 0.0)));
    let b = host.add_entity(plain(point(0.0, 0.0, 0.0)));
    assert!(host.selection().is_empty());
    host.set_selection(&[b, a]).unwrap();
    assert_eq!(host.selection(), vec![b, a]);
    assert!(host.set_selection(&[Handle { value: 99999 }]).is_err());
    assert!(host.set_selection(&[a, a]).is_err());
    assert_eq!(host.selection(), vec![b, a]);
    host.set_selection(&[]).unwrap();
    assert!(host.selection().is_empty());
}

fn nested_values(app: &Studio, insert: Handle) -> Vec<String> {
    match app.tabs[0].scene.document.get_entity(insert).map(|found| &found.data) {
        Some(EntityData::Insert(insert)) => {
            insert.attributes.iter().map(|attribute| attribute.value.value.clone()).collect()
        }
        _ => panic!("the block reference is gone"),
    }
}

fn nested_value(document: &CadDocument, handle: Handle) -> Option<(String, Scalar)> {
    match document.host_model_entity(handle).map(|found| found.data) {
        Some(EntityData::AttributeEntity(value)) => {
            Some((value.value.clone(), value.text.insertion_point.x))
        }
        _ => None,
    }
}

#[test]
fn nested_insert_attribute_crud_uses_parent_storage_and_undo() {
    let mut app = new_app();
    let (insert_handle, attribute_handle);
    {
        let mut host: Session = HostSession::new(&mut app, 0);
        let next = host.document().next_handle();
        let record_handle = Handle { value: next };
        let block_handle = Handle { value: next + 1 };
        let block_end_handle = Handle { value: next + 2 };
        host.document_mut().block_records.push(BlockRecord {
            handle: record_handle,
            name: "TAGBLOCK".into(),
            entity_handles: Arc::new(Vec::new()),
        });
        let mut block = entity(EntityData::Block);
        block.common.handle = block_handle;
        block.common.owner_handle = record_handle;
        host.document_mut().add_entity(block);
        let mut end = entity(EntityData::BlockEnd);
        end.common.handle = block_end_handle;
        end.common.owner_handle = record_handle;
        host.document_mut().add_entity(end);
        let mut definition =
            entity(EntityData::AttributeDefinition(Arc::new(AttributeDefinition {
                text: attribute_text("PART_NO"),
            })));
        definition.common.owner_handle = record_handle;
        let definition_handle = host.document_mut().add_entity(definition);
        insert_handle =
            host.document_mut().add_entity(block_reference("TAGBLOCK", at(10.0, 0.0, 0.0)));

        let mut text = attribute_text("PART_NO");
        text.insertion_point = at(10.0, 2.0, 0.0);
        let mut attribute = entity(EntityData::AttributeEntity(Arc::new(AttributeEntity {
            text,
            value: "PN-101".into(),
            attdef_handle: definition_handle,
        })));
        attribute.common.owner_handle = insert_handle;
        host.push_undo("Create attribute");
        attribute_handle = host.add_entity(plain(attribute));
        assert!(!attribute_handle.is_null());
        assert!(
            host.document().get_entity(attribute_handle).is_none(),
            "nested attributes must not become orphan flat entities"
        );
        assert!(nested_value(host.document(), attribute_handle)
            .is_some_and(|(value, _)| value == "PN-101"));

        let mut changed = host.document().host_model_entity(attribute_handle).unwrap();
        let EntityData::AttributeEntity(value) = &mut changed.data else { unreachable!() };
        Arc::make_mut(value).value = "PN-102".into();
        Arc::make_mut(value).text.insertion_point.x = num(12.0);
        host.update_entities_transaction("Edit attribute", vec![plain(changed)]).unwrap();
        assert_eq!(
            nested_value(host.document(), attribute_handle),
            Some(("PN-102".to_string(), num(12.0)))
        );

        host.push_undo("Delete attribute");
        assert!(host.remove_entity(attribute_handle));
        assert!(host.document().host_model_entity(attribute_handle).is_none());
    }
    assert_eq!(app.tabs[0].history.undo_stack.len(), 3);
    app.tabs[0].undo_steps(1);
    assert_eq!(nested_values(&app, insert_handle), vec!["PN-102"]);
    app.tabs[0].undo_steps(1);
    assert_eq!(nested_values(&app, insert_handle), vec!["PN-101"]);
    app.tabs[0].undo_steps(1);
    assert!(nested_values(&app, insert_handle).is_empty());
    app.tabs[0].redo_steps(3);
    assert!(nested_values(&app, insert_handle).is_empty());
}

#[test]
fn scripted_selection_does_not_expand_linked_leader_annotation() {
    let mut app = new_app();
    let mut host: Session = HostSession::new(&mut app, 0);
    let annotation = host.add_entity(plain(entity(EntityData::Text(Arc::new(StyledText {
        style_name: "Standard".into(),
    })))));
    let mut leader = default_leader();
    leader.annotation_handle = annotation;
    let leader_handle = host.add_entity(plain(entity(EntityData::Leader(Arc::new(leader)))));
    host.set_selection(&[leader_handle]).unwrap();
    assert_eq!(host.selection(), vec![leader_handle]);
}

#[test]
fn entity_transaction_validates_before_mutation_and_undoes_as_one_step() {
    let mut app = new_app();
    let (first, second);
    {
        let mut host: Session = HostSession::new(&mut app, 0);
        first = host.add_entity(plain(point(1.0, 0.0, 0.0)));
        second = host.add_entity(plain(point(2.0, 0.0, 0.0)));
        let mut a = host.document().get_entity(first).unwrap().copy();
        let mut b = host.document().get_entity(second).unwrap().copy();
        move_to(&mut a, 10.0);
        move_to(&mut b, 20.0);
        let mut invalid = b.copy();
        invalid.common.owner_handle = Handle { value: 99999 };
        assert!(host
            .update_entities_transaction("Move points", vec![plain(a.copy()), plain(invalid)])
            .is_err());
        let mut invalid_geometry = b.copy();
        move_to(&mut invalid_geometry, f64::NAN);
        assert!(host
            .update_entities_transaction(
                "Move points",
                vec![plain(a.copy()), plain(invalid_geometry)]
            )
            .unwrap_err()
            .contains("Point.location"));
        assert_eq!(host.app.tabs[0].history.undo_stack.len(), 0);
        assert_eq!(location(host.document(), first), Some(num(1.0)));
        host.update_entities_transaction("Move points", vec![plain(a), plain(b)]).unwrap();
        assert_eq!(location(host.document(), first), Some(num(10.0)));
    }
    assert_eq!(app.tabs[0].history.undo_stack.len(), 1);
    app.tabs[0].undo_steps(1);
    assert_eq!(location(&app.tabs[0].scene.document, first), Some(num(1.0)));
    assert_eq!(location(&app.tabs[0].scene.document, second), Some(num(2.0)));
    app.tabs[0].redo_steps(1);
    assert_eq!(location(&app.tabs[0].scene.document, first), Some(num(10.0)));
    assert_eq!(location(&app.tabs[0].scene.document, second), Some(num(20.0)));
}

#[test]
fn unmapped_canvas_kind_layer_change_undoes() {
    let mut app = new_app();
    let handle;
    {
        let mut host: Session = HostSession::new(&mut app, 0);
        handle = host.add_entity(settled(entity(EntityData::MLine(Arc::new(MLine {
            flags: 1,
            scale_factor: num(1.0),
            normal: at(0.0, 0.0, 1.0),
            style_name: "Standard".into(),
            style_handle: None,
            vertices: Arc::new(Vec::new()),
        })))));
        let changed =
            patch_canvas_layer(host.document().get_entity(handle).unwrap(), "HATCHES").unwrap();
        host.update_entities_transaction("Move hatch layer", vec![settled(changed)]).unwrap();
        assert_eq!(host.document().get_entity(handle).unwrap().common.layer, "HATCHES");
    }
    assert_eq!(app.tabs[0].history.undo_stack.len(), 1);
    app.tabs[0].undo_steps(1);
    assert_eq!(app.tabs[0].scene.document.get_entity(handle).unwrap().common.layer, "0");
}

fn reference_facts(document: &CadDocument, handle: Handle) -> (Scalar, Scalar, String) {
    match document.get_entity(handle).map(|found| &found.data) {
        Some(EntityData::Insert(insert)) => {
            (insert.insert_point.x, insert.x_scale, insert.block_name.clone())
        }
        _ => panic!("the block reference is gone"),
    }
}

#[test]
fn insert_transform_transaction_undoes_without_changing_block_identity() {
    let mut app = new_app();
    let handle;
    {
        let mut host: Session = HostSession::new(&mut app, 0);
        handle = host.add_entity(plain(block_reference("DOOR", at(1.0, 2.0, 0.0))));
        let mut changed = host.document().get_entity(handle).unwrap().copy();
        if let EntityData::Insert(insert) = &mut changed.data {
            Arc::make_mut(insert).insert_point.x = num(4.0);
            Arc::make_mut(insert).x_scale = num(2.0);
        }
        host.update_entities_transaction("Move block", vec![plain(changed)]).unwrap();
        assert_eq!(
            reference_facts(host.document(), handle),
            (num(4.0), num(2.0), "DOOR".to_string())
        );
    }
    assert_eq!(app.tabs[0].history.undo_stack.len(), 1);
    app.tabs[0].undo_steps(1);
    assert_eq!(
        reference_facts(&app.tabs[0].scene.document, handle),
        (num(1.0), num(1.0), "DOOR".to_string())
    );
}

fn number(value: f64) -> HostSettingValue {
    let single = value as f32;
    HostSettingValue::Number(
        num(value),
        if single.is_finite() { Some(num(single.rem_euclid(360.0) as f64)) } else { None },
    )
}

fn as_text(value: Option<HostSettingValue>) -> Option<String> {
    match value {
        Some(HostSettingValue::Text(text)) => Some(text),
        _ => None,
    }
}

fn as_number(value: Option<HostSettingValue>) -> Option<Scalar> {
    match value {
        Some(HostSettingValue::Number(value, _)) => Some(value),
        _ => None,
    }
}

#[test]
fn system_variables_change_without_command_reentry() {
    let mut app = new_app();
    let mut host: Session = HostSession::new(&mut app, 0);
    assert_eq!(as_text(host.system_variable("clayer")), Some("0".into()));
    assert_eq!(as_number(host.system_variable("SNAPANG")), Some(num(0.0)));
    assert!(host
        .set_system_variable("CLAYER", HostSettingValue::Text("Missing".into()))
        .is_err());
    assert_eq!(as_text(host.system_variable("CLAYER")), Some("0".into()));

    let mut annotation = point(0.0, 0.0, 0.0);
    annotation.common.layer = "Annotations".into();
    host.add_entity(plain(annotation));
    assert_eq!(
        as_text(
            host.set_system_variable("clayer", HostSettingValue::Text("Annotations".into())).ok()
        ),
        Some("Annotations".into())
    );
    assert_eq!(as_text(host.system_variable("CLAYER")), Some("Annotations".into()));
    assert_eq!(host.app.tabs[0].active_layer, "Annotations");
    assert_eq!(host.app.tabs[0].panel_layer, "Annotations");
    assert_eq!(host.app.ribbon.active_layer, "Annotations");
    assert!(host.app.tabs[0].dirty);

    assert_eq!(
        as_number(host.set_system_variable("snapang", number(450.0)).ok()),
        Some(num(90.0))
    );
    assert_eq!(as_number(host.system_variable("SNAPANG")), Some(num(90.0)));
    assert!(host.set_system_variable("SNAPANG", number(f64::INFINITY)).is_err());
    assert!(host.set_system_variable("SNAPANG", number(f64::MAX)).is_err());
    assert_eq!(as_number(host.system_variable("SNAPANG")), Some(num(90.0)));
}

#[test]
fn xdata_record_round_trips_and_registers_appid() {
    let mut app = new_app();
    let mut host: Session = HostSession::new(&mut app, 0);
    let h = host.add_entity(plain(point(0.0, 0.0, 0.0)));

    let rec = record(
        "DEMO_SURVEY",
        vec![XDataValue::String("PNT-1".to_string()), XDataValue::Integer32(42)],
    );
    assert!(host.write_record(h, rec));

    let got = host.read_record(h, "DEMO_SURVEY").expect("record missing");
    assert_eq!(got.values.len(), 2);
    // The application is registered so that a file keeps the data.
    assert!(host.document().has_app_id("DEMO_SURVEY"));

    // A second write replaces rather than duplicates the record.
    let rec2 = record("DEMO_SURVEY", vec![XDataValue::String("PNT-2".to_string())]);
    assert!(host.write_record(h, rec2));
    let got = host.read_record(h, "DEMO_SURVEY").unwrap();
    assert_eq!(got.values.len(), 1);

    // Removal reports whether anything was dropped.
    assert!(host.remove_record(h, "DEMO_SURVEY"));
    assert!(host.read_record(h, "DEMO_SURVEY").is_none());
    assert!(!host.remove_record(h, "DEMO_SURVEY"));
}

fn plugin_state<'s>(host: &'s Session<'_>, id: &str) -> Option<&'s u32> {
    host.plugin_state_any(id).and_then(|state| state.downcast_ref())
}

#[test]
fn plugin_state_round_trips_through_hostapi_trait() {
    let mut app = new_app();
    let mut host: Session = HostSession::new(&mut app, 0);

    // Absent before first use.
    assert!(plugin_state(&host, "opencad.demo").is_none());
    // Insert via ensure, then mutate.
    *host
        .ensure_plugin_state_any("opencad.demo", || Box::new(7u32) as State)
        .downcast_mut::<u32>()
        .unwrap() += 1;
    assert_eq!(*plugin_state(&host, "opencad.demo").unwrap(), 8);
    *host.plugin_state_any_mut("opencad.demo").unwrap().downcast_mut::<u32>().unwrap() = 100;
    assert_eq!(*plugin_state(&host, "opencad.demo").unwrap(), 100);
}

#[test]
fn add_entities_batch_assigns_handles_and_publishes_once() {
    let mut app = new_app();
    let mut host: Session = HostSession::new(&mut app, 0);

    let points: Vec<Scripted> =
        (0..5).map(|i| plain(point(i as f64, i as f64, 0.0))).collect();
    let told = host.app.events.len();
    let handles = host.add_entities(points);

    assert_eq!(handles.len(), 5);
    assert!(handles.iter().all(|h| !h.is_null()));
    // Each handle is unique.
    let mut set = HashSet::new();
    for h in &handles {
        assert!(set.insert(h.value));
    }
    // All entities are in the document.
    for h in &handles {
        assert!(host.document().get_entity(*h).is_some());
    }
    // The epoch and the view are announced once.
    assert_eq!(host.app.events.len(), told + 2);
}

#[test]
fn update_entity_replaces_in_place_preserving_handle() {
    let mut app = new_app();
    let mut host: Session = HostSession::new(&mut app, 0);
    let h = host.add_entity(plain(point(1.0, 1.0, 0.0)));
    let epoch_before = host.app.tabs[0].scene.geometry_epoch;

    // Edit a snapshot copy (as a plugin would) and commit it.
    let mut edited = host.document().get_entity(h).unwrap().copy();
    edited.common.layer = "PLUGIN_EDIT".to_string();
    assert!(host.update_entity(plain(edited)));

    // Same handle, edit applied, geometry redrawn.
    let got = host.document().get_entity(h).expect("entity kept its handle");
    assert_eq!(got.common.layer, "PLUGIN_EDIT");
    assert_ne!(
        host.app.tabs[0].scene.geometry_epoch, epoch_before,
        "update should bump geometry"
    );

    // Updating an unknown handle fails and changes nothing.
    let mut ghost = point(0.0, 0.0, 0.0);
    ghost.common.handle = Handle { value: 999_999 };
    assert!(!host.update_entity(plain(ghost)));
}

#[test]
fn add_and_update_auto_register_novel_layers_with_real_handles() {
    let mut app = new_app();
    let mut host: Session = HostSession::new(&mut app, 0);

    assert!(host.document().get_layer("PLUGIN-LAYER").is_none());
    let mut pt = point(3.0, 3.0, 0.0);
    pt.common.layer = "PLUGIN-LAYER".to_string();
    host.add_entity(plain(pt));

    let layer = host
        .document()
        .get_layer("PLUGIN-LAYER")
        .expect("novel layer auto-registered on add_entity");
    assert!(!layer.handle.is_null(), "auto-registered layer must carry a real handle");

    // Adding again on the same (now-existing) layer must not duplicate it.
    let count_before = host.document().layers.len();
    host.add_entity(plain(point(0.0, 0.0, 0.0)));
    let mut pt2 = point(0.0, 0.0, 0.0);
    pt2.common.layer = "PLUGIN-LAYER".to_string();
    host.add_entity(plain(pt2));
    assert_eq!(host.document().layers.len(), count_before);

    // Retargeting an entity to a novel layer via update_entity registers it.
    let h = host.add_entity(plain(point(0.0, 0.0, 0.0)));
    let mut edited = host.document().get_entity(h).unwrap().copy();
    edited.common.layer = "EDIT-LAYER".to_string();
    assert!(host.update_entity(plain(edited)));
    assert!(host.document().get_layer("EDIT-LAYER").is_some());
}

#[test]
fn remove_entity_deletes_and_clears_caches() {
    let mut app = new_app();
    let mut host: Session = HostSession::new(&mut app, 0);
    let h = host.add_entity(plain(point(2.0, 2.0, 0.0)));
    assert!(host.document().get_entity(h).is_some());
    host.set_selection(&[h]).unwrap();

    assert!(host.remove_entity(h));
    assert!(host.document().get_entity(h).is_none());
    assert!(host.selection().is_empty());

    // Removing an already-gone handle reports false.
    assert!(!host.remove_entity(h));
}

/// A plugin command: second point commits a point and ends.
struct PlacePoint {
    got_first: bool,
}

impl PlacePoint {
    fn on_point(&mut self, place: [f64; 3]) -> CommandStep {
        if self.got_first {
            CommandStep::CommitAndEnd(point(place[0], place[1], place[2]))
        } else {
            self.got_first = true;
            CommandStep::NeedPoint
        }
    }
}

#[test]
fn plugin_interactive_command_drives_host_flow() {
    let mut app = new_app();
    {
        let mut host: Session = HostSession::new(&mut app, 0);
        host.start_interactive(PlacePoint { got_first: false });
    }
    assert!(app.tabs[0].active_cmd.is_some());
    for place in [[0.0, 0.0, 0.0], [5.0, 5.0, 0.0]] {
        let step = app.tabs[0].active_cmd.as_mut().unwrap().on_point(place);
        app.apply_cmd_result(0, guarded_step(Some(step)));
    }
    assert_eq!(app.tabs[0].scene.document.entities.len(), 1);
    assert!(app.tabs[0].active_cmd.is_none(), "command should have ended");
}

/// A plugin command that picks an existing object, then marks it.
struct PickThenMark;

impl PickThenMark {
    fn needs_object_pick(&self) -> bool {
        true
    }

    fn on_object_pick(&mut self, _handle: Handle, place: [f64; 3]) -> CommandStep {
        CommandStep::CommitAndEnd(point(place[0], place[1], place[2]))
    }
}

#[test]
fn plugin_object_pick_routes_to_command() {
    let mut app: OpenCADStudio<State, PickThenMark> = OpenCADStudio::new(Vec::new());
    let target = {
        let mut host = HostSession::new(&mut app, 0);
        let h = host.add_entity(plain(point(3.0, 4.0, 0.0)));
        host.start_interactive(PickThenMark);
        h
    };
    // The command requested an entity pick, not a free point.
    assert!(app.tabs[0].active_cmd.as_ref().unwrap().needs_object_pick());
    let step =
        app.tabs[0].active_cmd.as_mut().unwrap().on_object_pick(target, [3.0, 4.0, 0.0]);
    app.apply_cmd_result(0, guarded_step(Some(step)));
    // Original point + the mark the command committed.
    assert_eq!(app.tabs[0].scene.document.entities.len(), 2);
}

#[test]
fn host_document_reader_sees_entities() {
    let mut app = new_app();
    let mut host: Session = HostSession::new(&mut app, 0);
    host.add_entity(plain(point(7.0, 8.0, 0.0)));
    let reader = host.document_reader();
    assert_eq!(reader.entity_count(), 1);
    let kinds: Vec<Kind> =
        (0..reader.entity_count()).map(|i| reader.entity(i).unwrap().1).collect();
    assert_eq!(kinds, vec![Kind::Point]);
}

#[test]
fn document_reader_to_xdata_roundtrip() {
    let mut app = new_app();
    let mut host: Session = HostSession::new(&mut app, 0);
    let h = host.add_entity(plain(point(7.0, 8.0, 0.0)));

    {
        let reader = host.document_reader();
        assert_eq!(reader.entity_count(), 1);
        let handles: Vec<Handle> =
            (0..reader.entity_count()).map(|i| reader.entity(i).unwrap().0).collect();
        assert_eq!(handles, vec![h]);
    }

    let rec = record("ROUNDTRIP", vec![XDataValue::String("from-reader".to_string())]);
    assert!(host.write_record(h, rec));

    let got = host.read_record(h, "ROUNDTRIP").expect("record missing");
    assert_eq!(got.values.len(), 1);
    assert!(matches!(got.values[0], XDataValue::String(ref s) if s == "from-reader"));

    assert!(host.remove_record(h, "ROUNDTRIP"));
    assert!(host.read_record(h, "ROUNDTRIP").is_none());
}

#[test]
fn test_plugin_add_layer_with_defaults_and_modify() {
    let mut app = new_app();
    let mut host: Session = HostSession::new(&mut app, 0);

    // 1. Add layer with minimal config (only name specified)
    let handle = host.add_layer(LayerConfig::named("ELECTRICAL")).expect("should create layer");
    assert_ne!(handle, Handle { value: 0 });

    // Verify defaults were applied
    let layer = host.document().get_layer("ELECTRICAL").expect("layer should exist");
    assert_eq!(layer.color, Color::Index(7));
    assert_eq!(layer.line_type, "Continuous");
    assert_eq!(layer.line_weight, LineWeight::ByLayer);
    assert!(!layer.off);
    assert!(!layer.frozen);
    assert!(!layer.locked);
    assert!(layer.is_plottable);

    // 2. Duplicate add_layer should be rejected (return None)
    let mut dup_config = LayerConfig::named("ELECTRICAL");
    dup_config.color = Some(Color::Index(1));
    assert!(host.add_layer(dup_config).is_none(), "duplicate layer should return None");

    // 3. Modify only color and locked; other properties should remain untouched
    let mut mod_config = LayerConfig::named("ELECTRICAL");
    mod_config.color = Some(Color::Index(1));
    mod_config.locked = Some(true);
    assert!(host.modify_layer(mod_config));

    let updated = host.document().get_layer("ELECTRICAL").expect("layer should exist");
    assert_eq!(updated.color, Color::Index(1));
    assert!(updated.locked);
    assert_eq!(updated.line_type, "Continuous");
    assert_eq!(updated.line_weight, LineWeight::ByLayer);
    assert!(!updated.off);

    // 4. Modify nonexistent layer returns false
    let mut non_existent = LayerConfig::named("DOES_NOT_EXIST");
    non_existent.color = Some(Color::Index(2));
    assert!(!host.modify_layer(non_existent));
}

#[test]
fn an_attribute_is_found_by_its_handle() {
    let attribute = ocs_plugin_host::entities::AttributeRecord {
        common: EntityCommon { handle: Handle { value: 9 }, ..on_layer("0") },
        value: Arc::new(AttributeEntity {
            text: attribute_text("A"),
            value: "1".into(),
            attdef_handle: Handle { value: 3 },
        }),
        record: Arc::new(Encoded::none()),
    };
    let attributes = vec![attribute];
    assert_eq!(find_attribute(&attributes, Handle { value: 9 }), Some(0));
    assert_eq!(find_attribute(&attributes, Handle { value: 8 }), None);
}
