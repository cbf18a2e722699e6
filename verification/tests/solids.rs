//! Solids, regions, surfaces and embedded pictures.

use std::sync::Arc;

use ocs_plugin_host::entities::{
    Circle, Encoded, EntityCommon, EntityData, EntityType, ExtendedData, ExtendedDataRecord,
    Kind, SurfaceKind, XDataValue,
};
use ocs_plugin_host::geometry::{Handle, Vector3};
use ocs_plugin_host::layers::LayerConfig;
use ocs_plugin_host::normalize::Derived;
use ocs_plugin_host::scalar::Scalar;
use ocs_plugin_host::scripting::Scripted;
use ocs_plugin_host::session::HostSession;
use ocs_plugin_host::solids::{
    ColumnProducts, KernelReply, Outcome, Snag, SolidBoolean, SolidOperation, SolidPrimitive,
};
use ocs_plugin_host::studio::OpenCADStudio;

type Session<'a> = HostSession<'a, (), ()>;

fn num(value: f64) -> Scalar {
    Scalar { bits: value.to_bits() }
}

fn at(x: f64, y: f64, z: f64) -> Vector3 {
    Vector3 { x: num(x), y: num(y), z: num(z), length: num(x.hypot(y).hypot(z)) }
}

fn new_app() -> OpenCADStudio<(), ()> {
    OpenCADStudio::new(Vec::new())
}

fn scripted(layer: &str, data: EntityData) -> Scripted {
    Scripted {
        entity: EntityType {
            common: EntityCommon {
                handle: Handle { value: 0 },
                layer: layer.into(),
                owner_handle: Handle { value: 0 },
                on_paper: false,
                look: Arc::new(Encoded::none()),
                extended_data: Arc::new(ExtendedData {
                    records: Vec::new(),
                    raw_dwg_eed: Vec::new(),
                }),
            },
            data,
            record: Arc::new(Encoded::none()),
        },
        derived: Derived::Nothing,
        file: Err("no file".into()),
    }
}

fn profile(layer: &str) -> Scripted {
    scripted(
        layer,
        EntityData::Circle(Circle { center: at(0.0, 0.0, 0.0), radius: num(2.0) }),
    )
}

fn record(bytes: &[u8]) -> Arc<Encoded> {
    Arc::new(Encoded { numbers: Vec::new(), rest: bytes.to_vec() })
}

fn built(bytes: &[u8]) -> Outcome {
    Outcome::Built(record(bytes))
}

fn cube(layer: Option<&str>) -> SolidOperation {
    SolidOperation::Create {
        primitive: SolidPrimitive::Box {
            center: at(0.0, 0.0, 0.0),
            length: num(10.0),
            width: num(6.0),
            height: num(4.0),
        },
        layer: layer.map(str::to_owned),
    }
}

/// The operation is refused with the message, and nothing changes.
fn refused(host: &mut Session<'_>, operation: SolidOperation, reply: KernelReply, message: &str) {
    let entities = host.document().entities.len();
    let told = host.app.events.len();
    let steps = host.app.tabs[0].history.undo_stack.len();
    assert_eq!(host.solid_operation(operation, reply), Err(message.to_string()));
    assert_eq!(host.document().entities.len(), entities, "{message}");
    assert_eq!(host.app.events.len(), told, "{message}");
    assert_eq!(host.app.tabs[0].history.undo_stack.len(), steps, "{message}");
}

fn kind(host: &Session<'_>, handle: Handle) -> Option<Kind> {
    host.document().get_entity(handle).map(|entity| entity.data.kind_of())
}

#[test]
fn a_solid_is_created_and_undone_in_one_step() {
    let mut app = new_app();
    let handle;
    {
        let mut host: Session = HostSession::new(&mut app, 0);
        handle =
            host.solid_operation(cube(Some("Bodies")), KernelReply::Body(built(&[1, 2]))).unwrap();
        let solid = host.document().get_entity(handle).unwrap();
        assert!(matches!(solid.data, EntityData::Solid3D));
        assert_eq!(solid.record.rest, vec![1, 2]);
        assert_eq!(solid.common.layer, "Bodies");
        assert!(host.document().get_layer("bodies").is_some());
    }
    assert_eq!(app.tabs[0].history.undo_stack.len(), 1);
    assert_eq!(app.tabs[0].history.undo_stack[0].label, "Create solid");
    app.tabs[0].undo_steps(1);
    assert!(app.tabs[0].scene.document.get_entity(handle).is_none());
    app.tabs[0].redo_steps(1);
    assert!(app.tabs[0].scene.document.get_entity(handle).is_some());
}

#[test]
fn dimensions_that_make_no_solid_are_refused() {
    let mut app = new_app();
    let mut host: Session = HostSession::new(&mut app, 0);
    let origin = at(0.0, 0.0, 0.0);
    for (primitive, message) in [
        (
            SolidPrimitive::Box {
                center: at(f64::NAN, 0.0, 0.0),
                length: num(1.0),
                width: num(1.0),
                height: num(1.0),
            },
            "box center must be finite",
        ),
        (
            SolidPrimitive::Box {
                center: origin,
                length: num(1.0),
                width: num(0.0),
                height: num(-1.0),
            },
            "box width must be finite and greater than zero",
        ),
        (
            SolidPrimitive::Wedge {
                origin,
                length: num(1.0),
                width: num(1.0),
                height: num(f64::INFINITY),
            },
            "wedge height must be finite and greater than zero",
        ),
        (
            SolidPrimitive::Cylinder { center: origin, radius: num(-2.0), height: num(1.0) },
            "cylinder radius must be finite and greater than zero",
        ),
        (
            SolidPrimitive::Sphere { center: origin, radius: num(0.0) },
            "sphere radius must be finite and greater than zero",
        ),
        (
            SolidPrimitive::Torus { center: origin, major: num(2.0), minor: num(2.0) },
            "torus minor radius must be smaller than the major radius",
        ),
        (
            SolidPrimitive::Pyramid {
                center: origin,
                radius: num(2.0),
                height: num(2.0),
                sides: 1025,
            },
            "pyramid sides must be between 3 and 1024",
        ),
    ] {
        refused(
            &mut host,
            SolidOperation::Create { primitive, layer: None },
            KernelReply::Body(built(&[])),
            message,
        );
    }
    refused(
        &mut host,
        cube(None),
        KernelReply::Body(Outcome::Refused),
        "the geometry kernel refused these dimensions",
    );
    refused(
        &mut host,
        cube(None),
        KernelReply::Body(Outcome::Lossy),
        "the solid could not be exported losslessly",
    );
    refused(&mut host, cube(Some(" ")), KernelReply::Body(built(&[])), "layer name is empty");
    let pyramid = SolidOperation::Create {
        primitive: SolidPrimitive::Pyramid {
            center: origin,
            radius: num(2.0),
            height: num(2.0),
            sides: 3,
        },
        layer: None,
    };
    assert!(host.solid_operation(pyramid, KernelReply::Body(built(&[7]))).is_ok());
}

#[test]
fn a_closed_profile_becomes_a_region_or_a_surface() {
    let mut app = new_app();
    let mut host: Session = HostSession::new(&mut app, 0);
    let source = host.add_entity(profile("Shapes"));
    let region = |delete_source: bool| SolidOperation::RegionFromProfile {
        source,
        layer: None,
        delete_source,
    };
    refused(
        &mut host,
        region(false),
        KernelReply::NoProfile,
        "the source is not a planar profile",
    );
    refused(
        &mut host,
        region(false),
        KernelReply::Profile { closed: false, outcome: built(&[]) },
        "the profile must be closed",
    );
    refused(
        &mut host,
        region(false),
        KernelReply::Profile { closed: true, outcome: Outcome::Refused },
        "the geometry kernel could not build a region from this profile",
    );
    refused(
        &mut host,
        region(false),
        KernelReply::Profile { closed: true, outcome: Outcome::Lossy },
        "the region could not be exported losslessly",
    );
    let surface = host
        .solid_operation(
            SolidOperation::SurfaceFromProfile {
                source,
                layer: Some("Skins".into()),
                delete_source: false,
            },
            KernelReply::Profile { closed: true, outcome: built(&[3]) },
        )
        .unwrap();
    let skin = host.document().get_entity(surface).unwrap();
    assert!(matches!(skin.data, EntityData::Surface(SurfaceKind::Plane)));
    assert_eq!(skin.common.layer, "Skins");
    let made = host
        .solid_operation(region(true), KernelReply::Profile { closed: true, outcome: built(&[4]) })
        .unwrap();
    assert_eq!(kind(&host, made), Some(Kind::Region));
    assert_eq!(host.document().get_entity(made).unwrap().common.layer, "Shapes");
    assert_eq!(kind(&host, source), None);
    refused(
        &mut host,
        SolidOperation::RegionFromProfile { source: made, layer: None, delete_source: false },
        KernelReply::Profile { closed: true, outcome: built(&[]) },
        "the source is already a region",
    );
    refused(
        &mut host,
        SolidOperation::SurfaceFromProfile {
            source: surface,
            layer: None,
            delete_source: false,
        },
        KernelReply::Profile { closed: true, outcome: built(&[]) },
        "the source must be a curve profile, not an existing solid or surface",
    );
    let missing = Handle { value: 0x999 };
    refused(
        &mut host,
        SolidOperation::RegionFromProfile { source: missing, layer: None, delete_source: false },
        KernelReply::NoProfile,
        &format!("entity {} does not exist", missing.show()),
    );
}

#[test]
fn an_extrusion_is_a_solid_or_a_surface() {
    let mut app = new_app();
    let mut host: Session = HostSession::new(&mut app, 0);
    let source = host.add_entity(profile("0"));
    let extrude = |direction: Vector3| SolidOperation::Extrude {
        source,
        direction,
        layer: None,
        delete_source: false,
    };
    refused(
        &mut host,
        extrude(at(0.0, f64::NAN, 0.0)),
        KernelReply::NoProfile,
        "extrusion direction must be finite",
    );
    refused(
        &mut host,
        extrude(at(0.0, 0.0, 1e-9)),
        KernelReply::NoProfile,
        "extrusion direction must be nonzero",
    );
    refused(
        &mut host,
        extrude(at(0.0, 0.0, 5.0)),
        KernelReply::Profile { closed: true, outcome: Outcome::Refused },
        "the geometry kernel could not extrude this profile in that direction",
    );
    let solid = host
        .solid_operation(
            extrude(at(0.0, 0.0, 5.0)),
            KernelReply::Profile { closed: true, outcome: built(&[1]) },
        )
        .unwrap();
    assert_eq!(kind(&host, solid), Some(Kind::Solid3D));
    let sheet = host
        .solid_operation(
            extrude(at(0.0, 0.0, 5.0)),
            KernelReply::Profile { closed: false, outcome: built(&[1]) },
        )
        .unwrap();
    assert!(matches!(
        host.document().get_entity(sheet).unwrap().data,
        EntityData::Surface(SurfaceKind::Generic)
    ));
    assert_eq!(kind(&host, source), Some(Kind::Circle));
}

fn combine(first: Handle, second: Handle, keep_operands: bool) -> SolidOperation {
    SolidOperation::Boolean {
        first,
        second,
        operation: SolidBoolean::Subtract,
        layer: None,
        keep_operands,
    }
}

#[test]
fn two_solids_are_combined() {
    let mut app = new_app();
    let (a, b, result);
    {
        let mut host: Session = HostSession::new(&mut app, 0);
        a = host.solid_operation(cube(Some("A")), KernelReply::Body(built(&[1]))).unwrap();
        b = host.solid_operation(cube(Some("B")), KernelReply::Body(built(&[2]))).unwrap();
        let circle = host.add_entity(profile("0"));
        host.write_record(
            a,
            ExtendedDataRecord {
                application_name: "PART".into(),
                values: Arc::new(vec![XDataValue::Integer16(4)]),
            },
        );
        refused(
            &mut host,
            combine(a, a, true),
            KernelReply::FirstUnreadable,
            "a solid cannot be combined with itself",
        );
        refused(
            &mut host,
            combine(a, circle, true),
            KernelReply::FirstUnreadable,
            "the second operand must be a Solid3D",
        );
        refused(
            &mut host,
            combine(circle, b, true),
            KernelReply::FirstUnreadable,
            "the first operand must be a Solid3D",
        );
        for (reply, message) in [
            (
                KernelReply::FirstUnreadable,
                "the first solid's payload cannot be lifted losslessly, so nothing was changed",
            ),
            (
                KernelReply::SecondUnreadable,
                "the second solid's payload cannot be lifted losslessly, so nothing was changed",
            ),
            (
                KernelReply::Snagged(Snag::Coincident),
                "the geometry kernel refused this Subtract (Coincident): two faces lie on the \
                 same surface, which the kernel cannot resolve; nothing was changed",
            ),
            (
                KernelReply::Snagged(Snag::CutRefused),
                "the geometry kernel refused this Subtract (CutRefused): a face could not be cut \
                 along the intersection curve; nothing was changed",
            ),
            (
                KernelReply::Snagged(Snag::NoClosedForm),
                "the geometry kernel refused this Subtract (NoClosedForm): the surfaces meet \
                 along a curve the kernel has no closed form for; nothing was changed",
            ),
            (
                KernelReply::Body(Outcome::Lossy),
                "the result could not be exported losslessly, so nothing was changed",
            ),
        ] {
            refused(&mut host, combine(a, b, true), reply, message);
        }
        result =
            host.solid_operation(combine(a, b, false), KernelReply::Body(built(&[3]))).unwrap();
        assert_eq!((kind(&host, a), kind(&host, b)), (None, None));
        let solid = host.document().get_entity(result).unwrap();
        assert_eq!(solid.record.rest, vec![3]);
        assert_eq!(solid.common.layer, "A");
        assert!(host.read_record(result, "PART").is_some());
    }
    let steps = app.tabs[0].history.undo_stack.len();
    app.tabs[0].undo_steps(1);
    assert_eq!(app.tabs[0].history.undo_stack.len(), steps - 1);
    let document = &app.tabs[0].scene.document;
    assert!(document.get_entity(a).is_some() && document.get_entity(b).is_some());
    assert!(document.get_entity(result).is_none());
}

#[test]
fn operands_on_a_locked_layer_are_kept() {
    let mut app = new_app();
    let mut host: Session = HostSession::new(&mut app, 0);
    let a = host.solid_operation(cube(Some("A")), KernelReply::Body(built(&[1]))).unwrap();
    let b = host.solid_operation(cube(Some("B")), KernelReply::Body(built(&[2]))).unwrap();
    let mut lock = LayerConfig::named("B");
    lock.locked = Some(true);
    assert!(host.modify_layer(lock));
    refused(
        &mut host,
        combine(a, b, false),
        KernelReply::Body(built(&[3])),
        &format!("entity {} is on a locked layer", b.show()),
    );
    assert!(host.solid_operation(combine(a, b, true), KernelReply::Body(built(&[3]))).is_ok());
    assert!(!host.remove_entity(b));
    assert_eq!(kind(&host, b), Some(Kind::Solid3D));
}

fn matrix(columns: [[f64; 3]; 3]) -> ([Scalar; 16], ColumnProducts) {
    let mut entries = [num(0.0); 16];
    for (i, column) in columns.iter().enumerate() {
        for (j, value) in column.iter().enumerate() {
            entries[4 * i + j] = num(*value);
        }
    }
    entries[12] = num(5.0);
    entries[15] = num(1.0);
    let dot = |a: [f64; 3], b: [f64; 3]| num(a[0] * b[0] + a[1] * b[1] + a[2] * b[2]);
    let [x, y, z] = columns;
    let products = ColumnProducts {
        xx: dot(x, x),
        yy: dot(y, y),
        zz: dot(z, z),
        xy: dot(x, y),
        xz: dot(x, z),
        yz: dot(y, z),
    };
    (entries, products)
}

#[test]
fn a_rigid_move_keeps_the_entity() {
    let mut app = new_app();
    let mut host: Session = HostSession::new(&mut app, 0);
    let solid = host.solid_operation(cube(Some("A")), KernelReply::Body(built(&[1]))).unwrap();
    let transform = |handle: Handle, (matrix, products): ([Scalar; 16], ColumnProducts)| {
        SolidOperation::Transform { handle, matrix, products }
    };
    let turn = matrix([[0.6, 0.8, 0.0], [-0.8, 0.6, 0.0], [0.0, 0.0, 1.0]]);
    let stretch = matrix([[2.0, 0.0, 0.0], [0.0, 1.0, 0.0], [0.0, 0.0, 1.0]]);
    refused(
        &mut host,
        transform(solid, stretch),
        KernelReply::FirstUnreadable,
        "only rigid moves and mirrors are supported; scaling and shear are not",
    );
    let mut broken = turn;
    broken.0[13] = num(f64::NAN);
    refused(
        &mut host,
        transform(solid, broken),
        KernelReply::FirstUnreadable,
        "transform matrix must be finite",
    );
    refused(
        &mut host,
        transform(solid, turn),
        KernelReply::FirstUnreadable,
        "this body's payload cannot be lifted losslessly, so it is left untouched",
    );
    refused(
        &mut host,
        transform(solid, turn),
        KernelReply::Body(Outcome::Refused),
        "the geometry kernel refused this transform",
    );
    let circle = host.add_entity(profile("0"));
    refused(
        &mut host,
        transform(circle, turn),
        KernelReply::FirstUnreadable,
        "transform applies to Solid3D, Body, Region and Surface entities",
    );
    assert_eq!(
        host.solid_operation(transform(solid, turn), KernelReply::Body(built(&[9]))),
        Ok(solid)
    );
    let moved = host.document().get_entity(solid).unwrap();
    assert_eq!((moved.common.layer.as_str(), moved.record.rest.as_slice()), ("A", &[9u8][..]));
    let swept =
        host.add_entity(scripted("0", EntityData::Surface(SurfaceKind::Revolved)));
    let flat = host.add_entity(scripted("0", EntityData::Surface(SurfaceKind::Plane)));
    refused(
        &mut host,
        transform(swept, turn),
        KernelReply::FirstUnreadable,
        "this surface's payload cannot be lifted losslessly, so it is left untouched",
    );
    refused(
        &mut host,
        transform(flat, turn),
        KernelReply::Body(Outcome::Lossy),
        "the moved surface could not be exported losslessly",
    );
    for (handle, kind) in [(swept, SurfaceKind::Generic), (flat, SurfaceKind::Plane)] {
        host.solid_operation(transform(handle, turn), KernelReply::Body(built(&[8]))).unwrap();
        assert!(matches!(
            host.document().get_entity(handle).unwrap().data,
            EntityData::Surface(found) if found == kind
        ));
    }
}

#[test]
fn a_picture_is_embedded() {
    let mut app = new_app();
    let mut host: Session = HostSession::new(&mut app, 0);
    let embed = |width: f64| SolidOperation::EmbedPicture {
        path: "plan \"a\".png".into(),
        origin: at(1.0, 2.0, 0.0),
        width: num(width),
        layer: None,
    };
    refused(
        &mut host,
        embed(0.0),
        KernelReply::Picture(Ok(record(&[]))),
        "picture width must be finite and greater than zero",
    );
    refused(
        &mut host,
        embed(4.0),
        KernelReply::Picture(Err("not found".into())),
        "cannot read the picture \"plan \\\"a\\\".png\": not found",
    );
    let frame = host
        .solid_operation(embed(4.0), KernelReply::Picture(Ok(record(&[5]))))
        .unwrap();
    assert_eq!(kind(&host, frame), Some(Kind::Ole2Frame));
    assert_eq!(host.document().get_entity(frame).unwrap().common.layer, "0");
}

#[test]
fn the_kernel_answers_what_it_is_asked() {
    let a = Handle { value: 1 };
    let b = Handle { value: 2 };
    assert!(KernelReply::Body(Outcome::Refused).is_answer_to(&cube(None)));
    assert!(!KernelReply::NoProfile.is_answer_to(&cube(None)));
    assert!(!KernelReply::Body(Outcome::Refused).is_answer_to(&combine(a, b, true)));
    assert!(KernelReply::Body(Outcome::Lossy).is_answer_to(&combine(a, b, true)));
    assert!(KernelReply::Snagged(Snag::CutRefused).is_answer_to(&combine(a, b, true)));
    assert!(!KernelReply::Picture(Err(String::new())).is_answer_to(&combine(a, b, true)));
}
