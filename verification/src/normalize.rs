//! The fields of an entity that follow from others: what the host sets itself
//! when a script creates or edits the entity.

use crate::agree::{lists_agree, share, Agree};
use crate::document::{CadDocument, DocumentView};
use crate::entities::{
    Encoded, EntityData, EntityType, Kind, MLine, MLineSegment, MLineVertex, SectionSymbol,
    SectionSymbolPoint, Spline, Viewport,
};
use crate::geometry::{Handle, Vector2, Vector3};
use crate::scalar::Scalar;
use crate::search::{pick, reversed, seek};
use crate::text::fault;
use std::sync::Arc;
use vstd::prelude::*;
use vstd::string::*;

verus! {

/// What the geometry engine derives for a scripted entity.
pub enum Derived {
    /// Nothing: the kind has no derived geometry.
    Nothing,
    /// What a dimension, a helix or a table keeps beside the fields that the host
    /// reads: the measured value, the curve, how far each cell is merged.
    Record(Arc<Encoded>),
    /// The cuts of a multiline, vertex by vertex, and what it keeps beside the
    /// fields that the host reads.
    Cuts(Vec<VertexCut>, Arc<Encoded>),
    /// Why a helix or a multiline cannot be completed.
    Refused(String),
    /// The scale of a viewport: its height over the height of its view.
    Scale(Scalar),
}

/// How a multiline is cut at a vertex.
#[derive(Clone, Debug)]
pub struct VertexCut {
    pub direction: Vector3,
    pub miter: Vector3,
    pub segments: Vec<MLineSegment>,
}

/// A vertex with another cut.
pub open spec fn recut(vertex: MLineVertex, cut: VertexCut) -> MLineVertex {
    MLineVertex {
        position: vertex.position,
        direction: cut.direction,
        miter: cut.miter,
        segments: cut.segments,
    }
}

/// The vertices are where they were, each with its new cut.
pub open spec fn all_recut(
    before: Seq<MLineVertex>,
    after: Seq<MLineVertex>,
    cuts: Seq<VertexCut>,
) -> bool {
    after.len() == before.len() && forall|i: int|
        0 <= i < before.len() ==> (#[trigger] after[i]) == recut(before[i], cuts[i])
}

impl Derived {
    /// The engine answers for the entity.
    pub open spec fn fits(self, data: EntityData) -> bool {
        let kind = data.kind();
        match self {
            Derived::Nothing => !(kind is Dimension || kind is Helix || kind is Table
                || kind is MLine || kind is Viewport),
            Derived::Record(_) => kind is Dimension || kind is Helix || kind is Table,
            Derived::Cuts(cuts, _) => data matches EntityData::MLine(value) && cuts@.len()
                == value.vertices@.len(),
            Derived::Refused(_) => kind is Helix || kind is MLine,
            Derived::Scale(_) => kind is Viewport,
        }
    }

    /// Whether the engine answers for the entity.
    pub fn is_fit(&self, data: &EntityData) -> (result: bool)
        ensures
            result == self.fits(*data),
    {
        let kind = data.kind_of();
        match self {
            Derived::Nothing => match kind {
                Kind::Dimension | Kind::Helix | Kind::Table | Kind::MLine | Kind::Viewport => false,
                _ => true,
            },
            Derived::Record(_) => match kind {
                Kind::Dimension | Kind::Helix | Kind::Table => true,
                _ => false,
            },
            Derived::Cuts(cuts, _) => match data {
                EntityData::MLine(value) => cuts.len() == value.vertices.len(),
                _ => false,
            },
            Derived::Refused(_) => match kind {
                Kind::Helix | Kind::MLine => true,
                _ => false,
            },
            Derived::Scale(_) => match kind {
                Kind::Viewport => true,
                _ => false,
            },
        }
    }
}

/// Gives every vertex its cut.
#[verifier::loop_isolation(false)]
fn recut_all(vertices: &Vec<MLineVertex>, cuts: Vec<VertexCut>) -> (result: Vec<MLineVertex>)
    requires
        cuts@.len() == vertices@.len(),
    ensures
        all_recut(vertices@, result@, cuts@),
{
    let ghost all = cuts@;
    let mut waiting = reversed(cuts);
    let mut result: Vec<MLineVertex> = Vec::new();
    while waiting.len() > 0
        invariant
            waiting@ == all.skip(result.len() as int).reverse(),
            result.len() + waiting.len() == all.len(),
            forall|i: int|
                0 <= i < result.len() ==> (#[trigger] result@[i]) == recut(vertices@[i], all[i]),
        decreases waiting.len(),
    {
        let index: usize = result.len();
        if let Some(cut) = waiting.pop() {
            proof {
                assert(cut == all[index as int]);
            }
            result.push(
                MLineVertex {
                    position: vertices[index].position,
                    direction: cut.direction,
                    miter: cut.miter,
                    segments: cut.segments,
                },
            );
            proof {
                assert(waiting@ =~= all.skip(result.len() as int).reverse());
            }
        }
    }
    result
}

/// The highest id of the viewports with an owner among the first entities.
pub open spec fn highest_id(entities: Seq<EntityType>, owner: Handle, count: int) -> Option<i16>
    decreases count,
{
    if count <= 0 {
        None
    } else {
        let below = highest_id(entities, owner, count - 1);
        match entities[count - 1].data {
            EntityData::Viewport(other) => if entities[count - 1].common.owner_handle == owner && (
            below is None || below->Some_0 < other.id) {
                Some(other.id)
            } else {
                below
            },
            _ => below,
        }
    }
}

/// The id of a new viewport: above those of its layout, and at least two. The
/// first id belongs to the sheet itself.
pub open spec fn fresh_id(doc: DocumentView, owner: Handle) -> i16 {
    match highest_id(doc.entities, owner, doc.entities.len() as int) {
        Some(highest) => if highest < 1 {
            2
        } else {
            (highest + 1) as i16
        },
        None => 2,
    }
}

/// The layout of a new viewport has an id left to give.
pub open spec fn id_left(doc: DocumentView, entity: EntityType) -> bool {
    entity.data is Viewport ==> highest_id(
        doc.entities,
        entity.common.owner_handle,
        doc.entities.len() as int,
    ) != Some(i16::MAX)
}

/// The point of a section line has a label.
pub open spec fn labelled() -> spec_fn(SectionSymbolPoint) -> bool {
    |point: SectionSymbolPoint| point.label@.len() > 0
}

/// A count as a file stores it.
pub open spec fn stored_count(count: int) -> i32 {
    if count > i32::MAX {
        i32::MAX
    } else {
        count as i32
    }
}

/// The counts, ends, ticks and label of a section symbol follow its points.
pub open spec fn synced(before: SectionSymbol, after: SectionSymbol) -> bool {
    let points = before.points@;
    &&& after.points == before.points
    &&& after.raw_point_count_90 == stored_count(points.len() as int)
    &&& after.raw_point_record_count == stored_count(points.len() as int)
    &&& if points.len() == 0 {
        &&& after.end_a == before.end_a
        &&& after.end_b == before.end_b
        &&& after.tick_a == before.tick_a
        &&& after.tick_b == before.tick_b
        &&& after.label@ == before.label@
    } else {
        &&& after.end_a == (Vector2 { x: points[0].point.x, y: points[0].point.y })
        &&& after.end_b == (Vector2 { x: points.last().point.x, y: points.last().point.y })
        &&& after.tick_a == points[0].label_offset.y
        &&& after.tick_b == points.last().label_offset.y
        &&& after.label@ == (match pick(points, labelled()) {
            Some(point) => point.label@,
            None => ""@,
        })
    }
}

/// The points of a section symbol are those that it had before.
pub open spec fn points_stay(old: Option<EntityType>, new: SectionSymbol) -> bool {
    match old {
        Some(entity) => match entity.data {
            EntityData::SectionSymbol(previous) => lists_agree(previous.points@, new.points@),
            _ => false,
        },
        None => false,
    }
}

/// `after` is `before` with the fields that follow from others.
pub open spec fn normalized(
    doc: DocumentView,
    old: Option<EntityType>,
    before: EntityType,
    after: EntityType,
    derived: Derived,
) -> bool {
    &&& after.common == before.common
    &&& match before.data {
        EntityData::Viewport(value) => {
            &&& after.record == before.record
            &&& after.data == EntityData::Viewport(
                Viewport {
                    id: if old is None {
                        fresh_id(doc, before.common.owner_handle)
                    } else {
                        value.id
                    },
                    custom_scale: derived->Scale_0,
                },
            )
        },
        EntityData::SectionSymbol(value) => {
            &&& after.record == before.record
            &&& if points_stay(old, *value) {
                after.data == before.data
            } else {
                after.data matches EntityData::SectionSymbol(new) && synced(*value, *new)
            }
        },
        EntityData::Spline(value) => {
            &&& after.record == before.record
            &&& after.data matches EntityData::Spline(new) && *new == (Spline {
                rational: value.weights@.len() > 0,
                ..*value
            })
        },
        EntityData::MLine(value) => derived matches Derived::Cuts(cuts, record) && {
            &&& after.record == record
            &&& after.data matches EntityData::MLine(new) && *new == (MLine {
                vertices: new.vertices,
                ..*value
            }) && all_recut(value.vertices@, new.vertices@, cuts@)
        },
        _ => match derived {
            Derived::Record(record) => after == (EntityType { record, ..before }),
            _ => after == before,
        },
    }
}

/// What normalizing keeps of an entity.
pub proof fn normalizing_keeps_identity(
    doc: DocumentView,
    old: Option<EntityType>,
    before: EntityType,
    after: EntityType,
    derived: Derived,
)
    requires
        normalized(doc, old, before, after, derived),
        derived.fits(before.data),
    ensures
        after.common == before.common,
        after.data.kind() == before.data.kind(),
        before.data is Insert || before.data is AttributeEntity ==> after == before,
{
}

impl CadDocument {
    /// The id of a new viewport in a layout.
    fn new_viewport_id(&self, owner: Handle) -> (result: i16)
        requires
            highest_id(self@.entities, owner, self@.entities.len() as int) != Some(i16::MAX),
        ensures
            result == fresh_id(self@, owner),
    {
        let mut highest: Option<i16> = None;
        let mut i: usize = 0;
        while i < self.entities.len()
            invariant
                i <= self.entities.len(),
                highest == highest_id(self.entities@, owner, i as int),
            decreases self.entities.len() - i,
        {
            if self.entities[i].common.owner_handle == owner {
                if let EntityData::Viewport(other) = &self.entities[i].data {
                    if highest.is_none() || highest.unwrap() < other.id {
                        highest = Some(other.id);
                    }
                }
            }
            i = i + 1;
        }
        match highest {
            Some(value) => if value < 1 {
                2
            } else {
                value + 1
            },
            None => 2,
        }
    }
}

/// The first label of a section line.
fn first_label(points: &Vec<SectionSymbolPoint>) -> (result: String)
    ensures
        result@ == (match pick(points@, labelled()) {
            Some(point) => point.label@,
            None => ""@,
        }),
{
    let mut i: usize = 0;
    while i < points.len()
        invariant
            i <= points.len(),
            seek(points@, 0, labelled()) == seek(points@, i as int, labelled()),
        decreases points.len() - i,
    {
        if points[i].label.as_str().unicode_len() > 0 {
            return points[i].label.clone();
        }
        i = i + 1;
    }
    "".to_owned()
}

fn sync_symbol(value: &SectionSymbol) -> (result: SectionSymbol)
    ensures
        synced(*value, result),
{
    let points: &Vec<SectionSymbolPoint> = &value.points;
    let length: usize = points.len();
    let count: i32 = if length > 0x7fff_ffff {
        0x7fff_ffff
    } else {
        length as i32
    };
    if length == 0 {
        return SectionSymbol {
            points: share(&value.points),
            raw_point_count_90: count,
            raw_point_record_count: count,
            end_a: value.end_a,
            end_b: value.end_b,
            tick_a: value.tick_a,
            tick_b: value.tick_b,
            label: value.label.clone(),
        };
    }
    let start = &points[0];
    let end = &points[length - 1];
    SectionSymbol {
        points: share(&value.points),
        raw_point_count_90: count,
        raw_point_record_count: count,
        end_a: Vector2 { x: start.point.x, y: start.point.y },
        end_b: Vector2 { x: end.point.x, y: end.point.y },
        tick_a: start.label_offset.y,
        tick_b: end.label_offset.y,
        label: first_label(points),
    }
}

fn have_points_stayed(old: Option<&EntityType>, new: &SectionSymbol) -> (result: bool)
    ensures
        result == points_stay(crate::search::item(old), *new),
{
    match old {
        Some(entity) => match &entity.data {
            EntityData::SectionSymbol(previous) => previous.points.agree(&new.points),
            _ => false,
        },
        None => false,
    }
}

impl CadDocument {
    /// Sets the fields of a scripted entity that follow from others. A viewport
    /// gets an id and a scale, a section symbol is brought in line with its
    /// points, a spline is rational where it has weights, and the geometry
    /// engine completes the kinds that it knows.
    pub fn normalize_scripted_entity(
        &self,
        previous: Option<&EntityType>,
        entity: &mut EntityType,
        derived: Derived,
    ) -> (result: Result<(), String>)
        requires
            derived.fits(old(entity).data),
            previous is None ==> id_left(self@, *old(entity)),
        ensures
            derived matches Derived::Refused(message) ==> fault(result) == Some(message@)
                && *final(entity) == *old(entity),
            !(derived is Refused) ==> result is Ok && normalized(
                self@,
                crate::search::item(previous),
                *old(entity),
                *final(entity),
                derived,
            ),
    {
        match derived {
            Derived::Refused(message) => {
                return Err(message);
            },
            Derived::Record(record) => {
                entity.record = record;
                return Ok(());
            },
            Derived::Cuts(cuts, record) => {
                let data: EntityData = match &entity.data {
                    EntityData::MLine(value) => EntityData::MLine(
                        Arc::new(
                            MLine {
                                flags: value.flags,
                                scale_factor: value.scale_factor,
                                normal: value.normal,
                                style_name: value.style_name.clone(),
                                style_handle: value.style_handle,
                                vertices: Arc::new(recut_all(&value.vertices, cuts)),
                            },
                        ),
                    ),
                    other => other.copy(),
                };
                entity.data = data;
                entity.record = record;
                return Ok(());
            },
            Derived::Scale(scale) => {
                let id: i16 = match (&entity.data, previous) {
                    (EntityData::Viewport(value), Some(_)) => value.id,
                    _ => if previous.is_none() {
                        self.new_viewport_id(entity.common.owner_handle)
                    } else {
                        2
                    },
                };
                entity.data = EntityData::Viewport(Viewport { id, custom_scale: scale });
                return Ok(());
            },
            Derived::Nothing => {},
        }
        let data: EntityData = match &entity.data {
            EntityData::SectionSymbol(value) => if have_points_stayed(previous, value) {
                EntityData::SectionSymbol(share(value))
            } else {
                EntityData::SectionSymbol(Arc::new(sync_symbol(value)))
            },
            EntityData::Spline(value) => EntityData::Spline(
                Arc::new(
                    Spline { rational: value.weights.len() > 0, weights: share(&value.weights) },
                ),
            ),
            other => other.copy(),
        };
        entity.data = data;
        Ok(())
    }
}

} // verus!
