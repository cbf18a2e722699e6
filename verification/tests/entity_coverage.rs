//! The rules for entities, on entities as the codec makes them.

use std::sync::Arc;

use acadrust::types::{Vector2 as Plane, Vector3 as Space};
use ocs_plugin_host::binding::bind_canvas_entity_references;
use ocs_plugin_host::creation_rules::validate_new_canvas_entity;
use ocs_plugin_host::document::CadDocument;
use ocs_plugin_host::entities::{
    AttributeDefinition, AttributeText, BoundaryEdge, BoundaryPath, Circle, Color, EdgeShape,
    Encoded, EntityCommon, EntityData, EntityType, ExtendedData, Face3D, Hatch, HatchPattern, Insert,
    Leader, LeaderCreationType, Line, LineEdge, MLine, MLineSegment, MLineVertex, Ray, Shape,
    Solid, StyledText, Tolerance, XLine,
};
use ocs_plugin_host::geometry::{Handle, Vector2, Vector3};
use ocs_plugin_host::mutation_rules::{patch_canvas_layer, validate_entity_mutation};
use ocs_plugin_host::records::{BlockRecord, TextStyle};
use ocs_plugin_host::reference_rules::validate_canvas_entity_references;
use ocs_plugin_host::scalar::Scalar;

fn num(value: f64) -> Scalar {
    Scalar { bits: value.to_bits() }
}

fn point3(value: &acadrust::types::Vector3) -> Vector3 {
    Vector3 {
        x: num(value.x),
        y: num(value.y),
        z: num(value.z),
        length: num(value.x.hypot(value.y).hypot(value.z)),
    }
}

fn point2(value: &acadrust::types::Vector2) -> Vector2 {
    Vector2 { x: num(value.x), y: num(value.y) }
}

fn id(value: acadrust::Handle) -> Handle {
    Handle { value: value.value() }
}

fn common(value: &acadrust::entities::EntityCommon) -> EntityCommon {
    EntityCommon {
        handle: id(value.handle),
        layer: value.layer.clone(),
        owner_handle: id(value.owner_handle),
        on_paper: false,
        look: Arc::new(Encoded::none()),
        extended_data: Arc::new(ExtendedData { records: Vec::new(), raw_dwg_eed: Vec::new() }),
    }
}

fn whole(common: EntityCommon, data: EntityData) -> EntityType {
    EntityType { common, data, record: Arc::new(Encoded::none()) }
}

fn tolerance(value: &acadrust::entities::Tolerance) -> EntityType {
    whole(
        common(&value.common),
        EntityData::Tolerance(Arc::new(Tolerance {
            insertion_point: point3(&value.insertion_point),
            direction: point3(&value.direction),
            normal: point3(&value.normal),
            text: value.text.clone(),
            dimension_style_name: value.dimension_style_name.clone(),
            dimension_style_handle: value.dimension_style_handle.map(id),
            text_height: num(value.text_height),
            dimension_gap: num(value.dimension_gap),
        })),
    )
}

fn leader(value: &acadrust::entities::Leader) -> EntityType {
    whole(
        common(&value.common),
        EntityData::Leader(Arc::new(Leader {
            dimension_style: value.dimension_style.clone(),
            creation_type: match value.creation_type {
                acadrust::entities::LeaderCreationType::WithText => LeaderCreationType::WithText,
                acadrust::entities::LeaderCreationType::WithTolerance => LeaderCreationType::WithTolerance,
                acadrust::entities::LeaderCreationType::WithBlock => LeaderCreationType::WithBlock,
                acadrust::entities::LeaderCreationType::NoAnnotation => LeaderCreationType::NoAnnotation,
            },
            text_height: num(value.text_height),
            text_width: num(value.text_width),
            vertices: Arc::new(value.vertices.iter().map(point3).collect()),
            annotation_handle: id(value.annotation_handle),
            normal: point3(&value.normal),
            horizontal_direction: point3(&value.horizontal_direction),
            block_offset: point3(&value.block_offset),
            annotation_offset: point3(&value.annotation_offset),
        })),
    )
}

fn mline(value: &acadrust::entities::MLine) -> EntityType {
    whole(
        common(&value.common),
        EntityData::MLine(Arc::new(MLine {
            flags: value.flags.bits() as u16,
            scale_factor: num(value.scale_factor),
            normal: point3(&value.normal),
            style_name: value.style_name.clone(),
            style_handle: value.style_handle.map(id),
            vertices: Arc::new(
                value
                    .vertices
                    .iter()
                    .map(|vertex| MLineVertex {
                        position: point3(&vertex.position),
                        direction: point3(&vertex.direction),
                        miter: point3(&vertex.miter),
                        segments: vertex
                            .segments
                            .iter()
                            .map(|segment| MLineSegment {
                                parameters: segment.parameters.iter().map(|p| num(*p)).collect(),
                                area_fill_parameters: segment
                                    .area_fill_parameters
                                    .iter()
                                    .map(|p| num(*p))
                                    .collect(),
                            })
                            .collect(),
                    })
                    .collect(),
            ),
        })),
    )
}

fn shape(value: &acadrust::entities::Shape) -> EntityType {
    whole(
        common(&value.common),
        EntityData::Shape(Arc::new(Shape {
            insertion_point: point3(&value.insertion_point),
            normal: point3(&value.normal),
            size: num(value.size),
            shape_name: value.shape_name.clone(),
            shape_number: value.shape_number,
            rotation: num(value.rotation),
            relative_x_scale: num(value.relative_x_scale),
            oblique_angle: num(value.oblique_angle),
            thickness: num(value.thickness),
            style_name: value.style_name.clone(),
            style_handle: value.style_handle.map(id),
        })),
    )
}

fn circle(value: &acadrust::entities::Circle) -> EntityType {
    whole(
        common(&value.common),
        EntityData::Circle(Circle { center: point3(&value.center), radius: num(value.radius) }),
    )
}

fn ray(value: &acadrust::entities::Ray) -> EntityType {
    whole(
        common(&value.common),
        EntityData::Ray(Ray {
            base_point: point3(&value.base_point),
            direction: point3(&value.direction),
        }),
    )
}

fn xline(value: &acadrust::entities::XLine) -> EntityType {
    whole(
        common(&value.common),
        EntityData::XLine(XLine {
            base_point: point3(&value.base_point),
            direction: point3(&value.direction),
        }),
    )
}

fn solid(value: &acadrust::entities::Solid) -> EntityType {
    whole(
        common(&value.common),
        EntityData::Solid(Solid {
            first_corner: point3(&value.first_corner),
            second_corner: point3(&value.second_corner),
            third_corner: point3(&value.third_corner),
            fourth_corner: point3(&value.fourth_corner),
            normal: point3(&value.normal),
            thickness: num(value.thickness),
        }),
    )
}

fn face(value: &acadrust::entities::Face3D) -> EntityType {
    whole(
        common(&value.common),
        EntityData::Face3D(Face3D {
            first_corner: point3(&value.first_corner),
            second_corner: point3(&value.second_corner),
            third_corner: point3(&value.third_corner),
            fourth_corner: point3(&value.fourth_corner),
            invisible_edges: value.invisible_edges.bits(),
        }),
    )
}

fn insert(value: &acadrust::entities::Insert) -> EntityType {
    whole(
        common(&value.common),
        EntityData::Insert(Arc::new(Insert {
            block_name: value.block_name.clone(),
            attributes: Arc::new(Vec::new()),
            view_rep_handle: value.view_rep_handle.map(id),
            seqend_handle: value.seqend_handle.map(id),
            insert_point: point3(&value.insert_point),
            normal: point3(&value.normal),
            x_scale: num(value.x_scale()),
            y_scale: num(value.y_scale()),
            z_scale: num(value.z_scale()),
            rotation: num(value.rotation),
            column_spacing: num(value.column_spacing),
            row_spacing: num(value.row_spacing),
            column_count: value.column_count,
            row_count: value.row_count,
        })),
    )
}

fn attribute_definition(value: &acadrust::entities::AttributeDefinition) -> EntityType {
    whole(
        common(&value.common),
        EntityData::AttributeDefinition(Arc::new(AttributeDefinition {
            text: AttributeText {
                tag: value.tag.clone(),
                insertion_point: point3(&value.insertion_point),
                alignment_point: point3(&value.alignment_point),
                normal: point3(&value.normal),
                height: num(value.height),
                rotation: num(value.rotation),
                width_factor: num(value.width_factor),
                oblique_angle: num(value.oblique_angle),
                text_style: value.text_style.clone(),
                field_length: value.field_length,
                line_count: value.line_count,
                embedded_mtext: None,
            },
        })),
    )
}

/// A hatch whose boundary is made of lines.
fn hatch(value: &acadrust::entities::Hatch) -> EntityType {
    let paths = value
        .paths
        .iter()
        .map(|path| {
            let ends: Vec<_> = path
                .edges
                .iter()
                .map(|edge| match edge {
                    acadrust::entities::BoundaryEdge::Line(line) => (line.start, line.end),
                    _ => unreachable!(),
                })
                .collect();
            BoundaryPath {
                flags: path.flags.bits(),
                edges: (0..ends.len())
                    .map(|i| {
                        let (start, end) = ends[i];
                        let next = ends[(i + 1) % ends.len()].0;
                        BoundaryEdge {
                            shape: EdgeShape::Line(LineEdge {
                                start: point2(&start),
                                end: point2(&end),
                                length: num((start.x - end.x).hypot(start.y - end.y)),
                            }),
                            gap: num((end.x - next.x).hypot(end.y - next.y)),
                        }
                    })
                    .collect(),
                boundary_handles: path.boundary_handles.iter().map(|h| id(*h)).collect(),
            }
        })
        .collect();
    whole(
        common(&value.common),
        EntityData::Hatch(Arc::new(Hatch {
            normal: point3(&value.normal),
            elevation: num(value.elevation),
            pattern: HatchPattern {
                name: value.pattern.name.clone(),
                description: value.pattern.description.clone(),
                lines: Vec::new(),
            },
            is_solid: value.is_solid,
            is_associative: value.is_associative,
            pattern_angle: num(value.pattern_angle),
            pattern_scale: num(value.pattern_scale),
            pixel_size: num(value.pixel_size),
            paths,
            seed_points: value.seed_points.iter().map(point2).collect(),
            gradient_color: Encoded::none(),
            is_mpolygon: value.is_mpolygon,
            mpolygon_hatch_color: Color::ByLayer,
            mpolygon_x_direction: point2(&value.mpolygon_x_direction),
            mpolygon_boundary_handle_count: 0,
        })),
    )
}

#[test]
fn tolerance_geometry_and_style_references_are_validated() {
    let document = CadDocument::new();
    let mut value = acadrust::entities::Tolerance::with_text(
        Space::new(1.0, 2.0, 0.0),
        "{\\Fgdt;p}%%v0.1",
    );
    let entity = tolerance(&value);
    validate_new_canvas_entity(&entity).unwrap();
    validate_canvas_entity_references(&document, &entity).unwrap();
    value.direction = Space::new(2.0, 0.0, 0.0);
    assert!(validate_new_canvas_entity(&tolerance(&value))
        .unwrap_err()
        .contains("unit vector"));
    value.direction = Space::UNIT_X;
    value.dimension_style_name = "Missing".into();
    assert!(validate_canvas_entity_references(&document, &tolerance(&value))
        .unwrap_err()
        .contains("does not exist"));
}

#[test]
fn leader_geometry_and_annotation_references_are_validated() {
    let mut document = CadDocument::new();
    let text_handle = document.allocate_handle();
    let mut text = whole(
        common(&acadrust::entities::Text::new().common),
        EntityData::Text(Arc::new(StyledText { style_name: "Standard".into() })),
    );
    text.common.handle = text_handle;
    document.add_entity(text);
    let mut value = acadrust::entities::Leader::two_point(
        Space::new(0.0, 0.0, 0.0),
        Space::new(10.0, 5.0, 0.0),
    );
    value.annotation_handle = acadrust::Handle::new(text_handle.value);
    let entity = leader(&value);
    validate_new_canvas_entity(&entity).unwrap();
    validate_canvas_entity_references(&document, &entity).unwrap();

    let mut wrong_kind = value.clone();
    wrong_kind.creation_type = acadrust::entities::LeaderCreationType::WithTolerance;
    assert!(validate_canvas_entity_references(&document, &leader(&wrong_kind))
        .unwrap_err()
        .contains("does not match"));
    let mut missing = value.clone();
    missing.annotation_handle = acadrust::Handle::new(0xdead);
    assert!(validate_canvas_entity_references(&document, &leader(&missing))
        .unwrap_err()
        .contains("does not exist"));
    let mut none_with_handle = value.clone();
    none_with_handle.creation_type = acadrust::entities::LeaderCreationType::NoAnnotation;
    assert!(validate_new_canvas_entity(&leader(&none_with_handle))
        .unwrap_err()
        .contains("no annotation"));
    let mut one_point = value.clone();
    one_point.vertices.truncate(1);
    assert!(validate_new_canvas_entity(&leader(&one_point))
        .unwrap_err()
        .contains("at least 2"));
    let mut bad_style = value.clone();
    bad_style.dimension_style = "Missing".into();
    assert!(validate_canvas_entity_references(&document, &leader(&bad_style))
        .unwrap_err()
        .contains("dimension style"));

    let mut edited = value.clone();
    edited.vertices[1] = Space::new(f64::NAN, 0.0, 0.0);
    assert!(validate_entity_mutation(&leader(&value), &leader(&edited))
        .unwrap_err()
        .contains("finite"));
}

#[test]
fn mline_geometry_and_style_references_are_validated_and_bound() {
    let document = CadDocument::new();
    let mut value = acadrust::entities::MLine::new();
    for x in [0.0, 5.0] {
        value.vertices.push(acadrust::entities::MLineVertex::new(Space::new(x, 0.0, 0.0)));
    }
    let mut entity = mline(&value);
    validate_new_canvas_entity(&entity).unwrap();
    bind_canvas_entity_references(&document, &mut entity).unwrap();
    assert!(matches!(&entity.data, EntityData::MLine(bound) if bound.style_handle.is_some()));

    let mut missing = value.clone();
    missing.style_name = "Missing".into();
    assert!(bind_canvas_entity_references(&document, &mut mline(&missing))
        .unwrap_err()
        .contains("does not exist"));
    let mut wrong_segments = value.clone();
    wrong_segments.vertices[0].init_segments(3);
    assert!(bind_canvas_entity_references(&document, &mut mline(&wrong_segments))
        .unwrap_err()
        .contains("segments but style"));
    let mut one = value.clone();
    one.vertices.truncate(1);
    assert!(validate_new_canvas_entity(&mline(&one)).unwrap_err().contains("at least 2"));
    let mut closed = value.clone();
    closed.flags |= acadrust::entities::MLineFlags::CLOSED;
    assert!(validate_new_canvas_entity(&mline(&closed)).unwrap_err().contains("at least 3"));
    let mut scale = value.clone();
    scale.scale_factor = 0.0;
    assert!(validate_new_canvas_entity(&mline(&scale)).unwrap_err().contains("nonzero"));
}

#[test]
fn shape_geometry_and_shape_file_style_are_validated_and_bound() {
    let mut document = CadDocument::new();
    let mut style = TextStyle::new("Symbols");
    style.handle = document.allocate_handle();
    style.is_shape_file = true;
    style.font_file = "symbols.shx".into();
    let style_handle = style.handle;
    document.text_styles.push(style);
    let mut value = acadrust::entities::Shape::with_style(
        Space::new(1.0, 2.0, 0.0),
        "ARROW",
        "Symbols",
        2.0,
        0.5,
    );
    value.shape_number = 1;
    let mut entity = shape(&value);
    validate_new_canvas_entity(&entity).unwrap();
    bind_canvas_entity_references(&document, &mut entity).unwrap();
    assert!(matches!(&entity.data, EntityData::Shape(bound)
        if bound.style_handle == Some(style_handle)));
    value.size = 0.0;
    assert!(validate_new_canvas_entity(&shape(&value))
        .unwrap_err()
        .contains("greater than zero"));
}

#[test]
fn changed_geometry_is_validated_without_rejecting_untouched_legacy_values() {
    let mut before = acadrust::entities::Circle::default();
    before.radius = f64::NAN;
    let mut layer_only = before.clone();
    layer_only.common.layer = "OTHER".into();
    assert!(validate_entity_mutation(&circle(&before), &circle(&layer_only)).is_ok());
    let mut bad_radius = before.clone();
    bad_radius.radius = -1.0;
    assert!(validate_entity_mutation(&circle(&before), &circle(&bad_radius))
        .unwrap_err()
        .contains("Circle.radius"));
}

#[test]
fn new_phase_seven_shapes_reject_invalid_geometry_and_keep_legacy_fields() {
    let mut value = acadrust::entities::Ray::default();
    value.direction = Space::new(2.0, 0.0, 0.0);
    assert!(validate_new_canvas_entity(&ray(&value)).unwrap_err().contains("Ray.direction"));
    let before = ray(&value);
    value.common.layer = "CONSTRUCTION".into();
    assert!(validate_entity_mutation(&before, &ray(&value)).is_ok());
    value.direction = Space::new(0.0, 1.0, 0.0);
    assert!(validate_entity_mutation(&before, &ray(&value)).is_ok());

    let mut construction = acadrust::entities::XLine::default();
    construction.base_point.x = f64::NAN;
    assert!(validate_new_canvas_entity(&xline(&construction))
        .unwrap_err()
        .contains("XLine.base_point"));

    let filled = acadrust::entities::Solid::new(
        Space::ZERO,
        Space::UNIT_X,
        Space::UNIT_Y,
        Space::ZERO,
    );
    let mut changed = filled.clone();
    changed.thickness = f64::INFINITY;
    assert!(validate_entity_mutation(&solid(&filled), &solid(&changed))
        .unwrap_err()
        .contains("Solid.thickness"));

    let flat = acadrust::entities::Face3D::new(
        Space::ZERO,
        Space::UNIT_X,
        Space::UNIT_Y,
        Space::ZERO,
    );
    let mut changed = flat.clone();
    changed.invisible_edges = acadrust::entities::InvisibleEdgeFlags::from_bits(0x10);
    assert!(validate_entity_mutation(&face(&flat), &face(&changed))
        .unwrap_err()
        .contains("Face3D.invisible_edges"));
}

#[test]
fn insert_transaction_checks_transforms_and_protects_references() {
    let before = acadrust::entities::Insert::new("DOOR", Space::new(1.0, 2.0, 0.0));
    let mut moved = before.clone();
    moved.insert_point = Space::new(5.0, 6.0, 0.0);
    moved.set_x_scale(2.0);
    assert!(validate_entity_mutation(&insert(&before), &insert(&moved)).is_ok());
    let mut bad = insert(&before);
    if let EntityData::Insert(value) = &mut bad.data {
        Arc::make_mut(value).y_scale = num(f64::NAN);
    }
    assert!(validate_entity_mutation(&insert(&before), &bad)
        .unwrap_err()
        .contains("Insert.y_scale"));
    let mut bad = before.clone();
    bad.column_count = 0;
    assert!(validate_entity_mutation(&insert(&before), &insert(&bad))
        .unwrap_err()
        .contains("array counts"));
    let mut bad = before.clone();
    bad.block_name = "OTHER".into();
    assert!(validate_entity_mutation(&insert(&before), &insert(&bad))
        .unwrap_err()
        .contains("block identity"));
}

#[test]
fn canvas_layer_patch_preserves_unmapped_hatch_fields() {
    let before = hatch(&acadrust::entities::Hatch::default());
    let patched = patch_canvas_layer(&before, "HATCHES").unwrap();
    assert_eq!(patched.common.layer, "HATCHES");
    assert_eq!(before.common.layer, "0");
    let mut expected = before.clone();
    expected.common.layer = "HATCHES".into();
    assert_eq!(format!("{patched:?}"), format!("{expected:?}"));
    assert!(patch_canvas_layer(&before, " ").is_err());
}

#[test]
fn attribute_definition_requires_a_block_owner_and_text_style() {
    let mut document = CadDocument::new();
    let next = document.next_handle();
    let record_handle = Handle { value: next };
    let block_handle = Handle { value: next + 1 };
    let end_handle = Handle { value: next + 2 };
    document.block_records.push(BlockRecord {
        handle: record_handle,
        name: "TAGBLOCK".into(),
        entity_handles: Arc::new(Vec::new()),
    });
    let source = acadrust::entities::BlockEnd::new();
    let mut block = whole(common(&source.common), EntityData::Block);
    block.common.handle = block_handle;
    block.common.owner_handle = record_handle;
    document.add_entity(block);
    let mut end = whole(common(&source.common), EntityData::BlockEnd);
    end.common.handle = end_handle;
    end.common.owner_handle = record_handle;
    document.add_entity(end);

    let mut definition = acadrust::entities::AttributeDefinition::new(
        "PART_NO".into(),
        "Part number".into(),
        "PN-001".into(),
    );
    definition.common.owner_handle = acadrust::Handle::new(record_handle.value);
    definition.insertion_point = Space::new(1.0, 2.0, 0.0);
    let entity = attribute_definition(&definition);
    validate_new_canvas_entity(&entity).unwrap();
    validate_canvas_entity_references(&document, &entity).unwrap();

    definition.common.owner_handle = acadrust::Handle::NULL;
    assert!(validate_canvas_entity_references(&document, &attribute_definition(&definition))
        .unwrap_err()
        .contains("block-record owner"));
    definition.common.owner_handle = acadrust::Handle::new(record_handle.value);
    definition.text_style = "Missing".into();
    assert!(validate_canvas_entity_references(&document, &attribute_definition(&definition))
        .unwrap_err()
        .contains("does not exist"));
    definition.text_style = "Standard".into();
    definition.tag = "BAD TAG".into();
    assert!(validate_new_canvas_entity(&attribute_definition(&definition))
        .unwrap_err()
        .contains("no whitespace"));
}

#[test]
fn hatch_geometry_and_boundaries_are_validated() {
    let mut value = acadrust::entities::Hatch::new();
    let mut path = acadrust::entities::BoundaryPath::new();
    for (start, end) in [
        ((0.0, 0.0), (10.0, 0.0)),
        ((10.0, 0.0), (10.0, 10.0)),
        ((10.0, 10.0), (0.0, 10.0)),
        ((0.0, 10.0), (0.0, 0.0)),
    ] {
        path.edges.push(acadrust::entities::BoundaryEdge::Line(acadrust::entities::LineEdge {
            start: Plane::new(start.0, start.1),
            end: Plane::new(end.0, end.1),
        }));
    }
    value.paths.push(path);
    validate_new_canvas_entity(&hatch(&value)).unwrap();

    let mut invalid = value.clone();
    invalid.paths.clear();
    assert!(validate_new_canvas_entity(&hatch(&invalid))
        .unwrap_err()
        .contains("at least one boundary path"));

    let mut invalid = value.clone();
    invalid.is_solid = false;
    invalid.pattern_scale = 0.0;
    assert!(validate_new_canvas_entity(&hatch(&invalid))
        .unwrap_err()
        .contains("greater than zero"));

    let mut document = CadDocument::new();
    let source = acadrust::entities::Line::from_points(Space::ZERO, Space::UNIT_X);
    let boundary = document.add_entity(whole(
        common(&source.common),
        EntityData::Line(Line { start: point3(&source.start), end: point3(&source.end) }),
    ));
    let mut associative = value.clone();
    associative.is_associative = true;
    associative.paths[0].boundary_handles.push(acadrust::Handle::new(boundary.value));
    validate_canvas_entity_references(&document, &hatch(&associative)).unwrap();
    associative.paths[0].boundary_handles[0] = acadrust::Handle::new(u64::MAX);
    assert!(validate_canvas_entity_references(&document, &hatch(&associative))
        .unwrap_err()
        .contains("does not exist"));
}

fn gradient(shift: f64, name: &str) -> Encoded {
    Encoded { numbers: vec![num(shift)], rest: name.as_bytes().to_vec() }
}

#[test]
fn fields_that_scripts_do_not_see_are_compared_as_numbers() {
    let filled = |color: Encoded| {
        let mut entity = hatch(&acadrust::entities::Hatch::default());
        if let EntityData::Hatch(value) = &mut entity.data {
            Arc::make_mut(value).gradient_color = color;
        }
        entity
    };
    let before = filled(gradient(0.0, "linear"));
    validate_entity_mutation(&before, &filled(gradient(-0.0, "linear"))).unwrap();
    // What is left alone does not stand in the way of other edits, not even where
    // it is not a number.
    let broken = filled(gradient(f64::NAN, "linear"));
    validate_entity_mutation(&broken, &filled(gradient(f64::NAN, "linear"))).unwrap();
    for changed in [gradient(1.0, "linear"), gradient(0.0, "spherical")] {
        assert_eq!(
            validate_entity_mutation(&before, &filled(changed)),
            Err("Hatch.gradient_color is unmapped and read-only".into())
        );
    }

    let noted = |text: Option<Encoded>| {
        let source = acadrust::entities::AttributeDefinition::new(
            "TAG".into(),
            "Prompt".into(),
            "1".into(),
        );
        let mut entity = attribute_definition(&source);
        if let EntityData::AttributeDefinition(value) = &mut entity.data {
            Arc::make_mut(value).text.embedded_mtext = text.map(Arc::new);
        }
        entity
    };
    let before = noted(Some(gradient(-0.0, "note")));
    validate_entity_mutation(&before, &noted(Some(gradient(0.0, "note")))).unwrap();
    for changed in [Some(gradient(2.0, "note")), Some(gradient(0.0, "other")), None] {
        assert_eq!(
            validate_entity_mutation(&before, &noted(changed)),
            Err("AttributeDefinition.embedded_mtext is unmapped and read-only".into())
        );
    }
}
