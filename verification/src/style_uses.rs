//! Where styles are used, and what follows when one is renamed.

use crate::agree::share;
use crate::attributes::{reattribute, reattributed};
use crate::document::{CadDocument, DocumentView, Header};
use crate::entities::{
    AttributeDefinition, AttributeEntity, AttributeRecord, AttributeText, Dimension, EntityData,
    EntityType, Leader, Shape, StyledText, Tolerance,
};
use crate::records::{find_key, keyed, table_key, DimStyle, TextStyle};
use crate::search::{pick, seek};
use crate::studio::TableStyleKind;
use crate::text::{alike, is_alike};
use std::sync::Arc;
use vstd::prelude::*;
use vstd::string::*;

verus! {

/// The style that an entity names, of a kind.
pub open spec fn named_style(kind: TableStyleKind, data: EntityData) -> Option<Seq<char>> {
    match (kind, data) {
        (TableStyleKind::Text, EntityData::Text(value)) => Some(value.style_name@),
        (TableStyleKind::Text, EntityData::MText(value)) => Some(value.style_name@),
        (TableStyleKind::Text, EntityData::Shape(value)) => Some(value.style_name@),
        (TableStyleKind::Text, EntityData::AttributeDefinition(value)) => Some(
            value.text.text_style@,
        ),
        (TableStyleKind::Text, EntityData::AttributeEntity(value)) => Some(value.text.text_style@),
        (TableStyleKind::Dim, EntityData::Dimension(value)) => Some(value.style_name@),
        (TableStyleKind::Dim, EntityData::Leader(value)) => Some(value.dimension_style@),
        (TableStyleKind::Dim, EntityData::Tolerance(value)) => Some(value.dimension_style_name@),
        _ => None,
    }
}

/// An attribute of a block reference is written in the style.
pub open spec fn attribute_uses(name: Seq<char>) -> spec_fn(AttributeRecord) -> bool {
    |attribute: AttributeRecord| alike(attribute.value.text.text_style@, name)
}

/// The entity uses the style, itself or through an attribute.
pub open spec fn uses(kind: TableStyleKind, name: Seq<char>) -> spec_fn(EntityType) -> bool {
    |entity: EntityType|
        (named_style(kind, entity.data) matches Some(style) && alike(style, name)) || (kind is Text
            && (entity.data matches EntityData::Insert(insert) && pick(
            insert.attributes@,
            attribute_uses(name),
        ) is Some))
}

/// A dimension style writes its text in the style.
pub open spec fn dim_style_uses(name: Seq<char>) -> spec_fn(DimStyle) -> bool {
    |style: DimStyle| alike(style.dimtxsty@, name)
}

/// The style is the current one, a dimension style needs it, or an entity uses
/// it.
pub open spec fn style_in_use(doc: DocumentView, kind: TableStyleKind, name: Seq<char>) -> bool {
    ||| alike(
        match kind {
            TableStyleKind::Text => doc.header.current_text_style_name@,
            TableStyleKind::Dim => doc.header.current_dimstyle_name@,
        },
        name,
    )
    ||| kind is Text && pick(doc.dim_styles, dim_style_uses(name)) is Some
    ||| pick(doc.entities, uses(kind, name)) is Some
}

/// The name of the style that an entity names, of a kind.
fn style_name_of(kind: TableStyleKind, data: &EntityData) -> (result: Option<&String>)
    ensures
        match (result, named_style(kind, *data)) {
            (Some(name), Some(expected)) => name@ == expected,
            (None, None) => true,
            _ => false,
        },
{
    match (kind, data) {
        (TableStyleKind::Text, EntityData::Text(value)) => Some(&value.style_name),
        (TableStyleKind::Text, EntityData::MText(value)) => Some(&value.style_name),
        (TableStyleKind::Text, EntityData::Shape(value)) => Some(&value.style_name),
        (TableStyleKind::Text, EntityData::AttributeDefinition(value)) => Some(
            &value.text.text_style,
        ),
        (TableStyleKind::Text, EntityData::AttributeEntity(value)) => Some(&value.text.text_style),
        (TableStyleKind::Dim, EntityData::Dimension(value)) => Some(&value.style_name),
        (TableStyleKind::Dim, EntityData::Leader(value)) => Some(&value.dimension_style),
        (TableStyleKind::Dim, EntityData::Tolerance(value)) => Some(&value.dimension_style_name),
        _ => None,
    }
}

fn attributes_use(attributes: &Vec<AttributeRecord>, name: &str) -> (result: bool)
    ensures
        result == (pick(attributes@, attribute_uses(name@)) is Some),
{
    let mut i: usize = 0;
    while i < attributes.len()
        invariant
            i <= attributes.len(),
            seek(attributes@, 0, attribute_uses(name@)) == seek(
                attributes@,
                i as int,
                attribute_uses(name@),
            ),
        decreases attributes.len() - i,
    {
        if is_alike(&attributes[i].value.text.text_style, name) {
            return true;
        }
        i = i + 1;
    }
    false
}

fn entity_uses(kind: TableStyleKind, name: &str, entity: &EntityType) -> (result: bool)
    ensures
        result == uses(kind, name@)(*entity),
{
    if let Some(style) = style_name_of(kind, &entity.data) {
        if is_alike(style, name) {
            return true;
        }
    }
    match (kind, &entity.data) {
        (TableStyleKind::Text, EntityData::Insert(insert)) => attributes_use(
            &insert.attributes,
            name,
        ),
        _ => false,
    }
}

impl CadDocument {
    /// Whether a style is the current one, or anything in the drawing uses it.
    pub fn is_style_in_use(&self, kind: TableStyleKind, name: &str) -> (result: bool)
        ensures
            result == style_in_use(self@, kind, name@),
    {
        let current = match kind {
            TableStyleKind::Text => is_alike(&self.header.current_text_style_name, name),
            TableStyleKind::Dim => is_alike(&self.header.current_dimstyle_name, name),
        };
        if current {
            return true;
        }
        if kind == TableStyleKind::Text && self.has_dim_style_with(name) {
            return true;
        }
        self.has_entity_with(kind, name)
    }

    fn has_dim_style_with(&self, name: &str) -> (result: bool)
        ensures
            result == (pick(self@.dim_styles, dim_style_uses(name@)) is Some),
    {
        let mut i: usize = 0;
        while i < self.dim_styles.len()
            invariant
                i <= self.dim_styles.len(),
                seek(self.dim_styles@, 0, dim_style_uses(name@)) == seek(
                    self.dim_styles@,
                    i as int,
                    dim_style_uses(name@),
                ),
            decreases self.dim_styles.len() - i,
        {
            if is_alike(&self.dim_styles[i].dimtxsty, name) {
                return true;
            }
            i = i + 1;
        }
        false
    }

    fn has_entity_with(&self, kind: TableStyleKind, name: &str) -> (result: bool)
        ensures
            result == (pick(self@.entities, uses(kind, name@)) is Some),
    {
        let mut i: usize = 0;
        while i < self.entities.len()
            invariant
                i <= self.entities.len(),
                seek(self.entities@, 0, uses(kind, name@)) == seek(
                    self.entities@,
                    i as int,
                    uses(kind, name@),
                ),
            decreases self.entities.len() - i,
        {
            if entity_uses(kind, name, &self.entities[i]) {
                return true;
            }
            i = i + 1;
        }
        false
    }
}

/// An attribute that was written in a style is so under its new name, and nothing
/// else of it changed.
pub open spec fn attribute_restyled(
    from: Seq<char>,
    to: Seq<char>,
    before: AttributeRecord,
    after: AttributeRecord,
) -> bool {
    if alike(before.value.text.text_style@, from) {
        &&& after.common == before.common
        &&& after.record == before.record
        &&& after.value.text.text_style@ == to
        &&& *after.value == (AttributeEntity {
            text: AttributeText {
                text_style: after.value.text.text_style,
                ..before.value.text
            },
            ..*before.value
        })
    } else {
        after == before
    }
}

/// Each attribute that was written in a style is so under its new name.
pub open spec fn attributes_restyled(
    from: Seq<char>,
    to: Seq<char>,
    before: Seq<AttributeRecord>,
    after: Seq<AttributeRecord>,
) -> bool {
    after.len() == before.len() && forall|j: int|
        0 <= j < before.len() ==> attribute_restyled(from, to, #[trigger] before[j], after[j])
}

/// An entity that named a style names it under its new name, and so do the
/// attributes of a block reference. Nothing else of it changed.
pub open spec fn entity_restyled(
    kind: TableStyleKind,
    from: Seq<char>,
    to: Seq<char>,
    before: EntityType,
    after: EntityType,
) -> bool {
    if named_style(kind, before.data) matches Some(style) && alike(style, from) {
        &&& after.common == before.common
        &&& after.record == before.record
        &&& named_style(kind, after.data) == Some(to)
        &&& match (before.data, after.data) {
            (EntityData::Text(_), EntityData::Text(_)) => true,
            (EntityData::MText(_), EntityData::MText(_)) => true,
            (EntityData::Shape(old_value), EntityData::Shape(value)) => *value == (Shape {
                style_name: value.style_name,
                ..*old_value
            }),
            (
                EntityData::AttributeDefinition(old_value),
                EntityData::AttributeDefinition(value),
            ) => value.text == (AttributeText {
                text_style: value.text.text_style,
                ..old_value.text
            }),
            (
                EntityData::AttributeEntity(old_value),
                EntityData::AttributeEntity(value),
            ) => *value == (AttributeEntity {
                text: AttributeText { text_style: value.text.text_style, ..old_value.text },
                ..*old_value
            }),
            (EntityData::Dimension(old_value), EntityData::Dimension(value)) => *value == (
            Dimension { style_name: value.style_name, ..*old_value }),
            (EntityData::Leader(old_value), EntityData::Leader(value)) => *value == (Leader {
                dimension_style: value.dimension_style,
                ..*old_value
            }),
            (EntityData::Tolerance(old_value), EntityData::Tolerance(value)) => *value == (
            Tolerance { dimension_style_name: value.dimension_style_name, ..*old_value }),
            _ => false,
        }
    } else if kind is Text && before.data is Insert {
        before.data matches EntityData::Insert(old_insert) && (after.data matches EntityData::Insert(
            insert,
        ) && reattributed(before, after, insert.attributes@) && attributes_restyled(
            from,
            to,
            old_insert.attributes@,
            insert.attributes@,
        ))
    } else {
        after == before
    }
}

fn restyle_shape(value: &Shape, to: &str) -> (result: Shape)
    ensures
        result.style_name@ == to@,
        result == (Shape { style_name: result.style_name, ..*value }),
{
    Shape {
        insertion_point: value.insertion_point,
        normal: value.normal,
        size: value.size,
        shape_name: value.shape_name.clone(),
        shape_number: value.shape_number,
        rotation: value.rotation,
        relative_x_scale: value.relative_x_scale,
        oblique_angle: value.oblique_angle,
        thickness: value.thickness,
        style_name: to.to_owned(),
        style_handle: value.style_handle,
    }
}

fn restyle_text(value: &AttributeText, to: &str) -> (result: AttributeText)
    ensures
        result.text_style@ == to@,
        result == (AttributeText { text_style: result.text_style, ..*value }),
{
    let mut text = value.copy();
    text.text_style = to.to_owned();
    text
}

fn restyle_dimension(value: &Dimension, to: &str) -> (result: Dimension)
    ensures
        result.style_name@ == to@,
        result == (Dimension { style_name: result.style_name, ..*value }),
{
    Dimension {
        normal: value.normal,
        text_middle_point: value.text_middle_point,
        text_rotation: value.text_rotation,
        horizontal_direction: value.horizontal_direction,
        style_name: to.to_owned(),
        geometry: value.geometry,
        measurement: value.measurement,
    }
}

fn restyle_leader(value: &Leader, to: &str) -> (result: Leader)
    ensures
        result.dimension_style@ == to@,
        result == (Leader { dimension_style: result.dimension_style, ..*value }),
{
    Leader {
        dimension_style: to.to_owned(),
        creation_type: value.creation_type,
        text_height: value.text_height,
        text_width: value.text_width,
        vertices: share(&value.vertices),
        annotation_handle: value.annotation_handle,
        normal: value.normal,
        horizontal_direction: value.horizontal_direction,
        block_offset: value.block_offset,
        annotation_offset: value.annotation_offset,
    }
}

fn restyle_tolerance(value: &Tolerance, to: &str) -> (result: Tolerance)
    ensures
        result.dimension_style_name@ == to@,
        result == (Tolerance { dimension_style_name: result.dimension_style_name, ..*value }),
{
    Tolerance {
        insertion_point: value.insertion_point,
        direction: value.direction,
        normal: value.normal,
        text: value.text.clone(),
        dimension_style_name: to.to_owned(),
        dimension_style_handle: value.dimension_style_handle,
        text_height: value.text_height,
        dimension_gap: value.dimension_gap,
    }
}

#[verifier::loop_isolation(false)]
fn restyle_attributes(from: &str, to: &str, attributes: &Vec<AttributeRecord>) -> (result: Vec<
    AttributeRecord,
>)
    ensures
        attributes_restyled(from@, to@, attributes@, result@),
{
    let mut result: Vec<AttributeRecord> = Vec::new();
    let mut i: usize = 0;
    while i < attributes.len()
        invariant
            i <= attributes.len(),
            result.len() == i,
            forall|j: int|
                0 <= j < i ==> attribute_restyled(
                    from@,
                    to@,
                    #[trigger] attributes@[j],
                    result@[j],
                ),
        decreases attributes.len() - i,
    {
        let attribute = &attributes[i];
        if is_alike(&attribute.value.text.text_style, from) {
            let value = AttributeEntity {
                text: restyle_text(&attribute.value.text, to),
                value: attribute.value.value.clone(),
                attdef_handle: attribute.value.attdef_handle,
            };
            result.push(
                AttributeRecord {
                    common: attribute.common.copy(),
                    value: Arc::new(value),
                    record: share(&attribute.record),
                },
            );
        } else {
            result.push(attribute.copy());
        }
        i = i + 1;
    }
    result
}

/// The entity with a style under its new name.
fn restyle(kind: TableStyleKind, from: &str, to: &str, entity: &EntityType) -> (result: EntityType)
    ensures
        entity_restyled(kind, from@, to@, *entity, result),
{
    let follows = match style_name_of(kind, &entity.data) {
        Some(style) => is_alike(style, from),
        None => false,
    };
    if !follows {
        return match (kind, &entity.data) {
            (TableStyleKind::Text, EntityData::Insert(insert)) => reattribute(
                entity,
                restyle_attributes(from, to, &insert.attributes),
            ),
            _ => entity.copy(),
        };
    }
    let data = match &entity.data {
        EntityData::Text(_) => EntityData::Text(
            Arc::new(StyledText { style_name: to.to_owned() }),
        ),
        EntityData::MText(_) => EntityData::MText(
            Arc::new(StyledText { style_name: to.to_owned() }),
        ),
        EntityData::Shape(value) => EntityData::Shape(Arc::new(restyle_shape(value, to))),
        EntityData::AttributeDefinition(value) => EntityData::AttributeDefinition(
            Arc::new(AttributeDefinition { text: restyle_text(&value.text, to) }),
        ),
        EntityData::AttributeEntity(value) => EntityData::AttributeEntity(
            Arc::new(
                AttributeEntity {
                    text: restyle_text(&value.text, to),
                    value: value.value.clone(),
                    attdef_handle: value.attdef_handle,
                },
            ),
        ),
        EntityData::Dimension(value) => EntityData::Dimension(
            Arc::new(restyle_dimension(value, to)),
        ),
        EntityData::Leader(value) => EntityData::Leader(Arc::new(restyle_leader(value, to))),
        EntityData::Tolerance(value) => EntityData::Tolerance(
            Arc::new(restyle_tolerance(value, to)),
        ),
        other => other.copy(),
    };
    EntityType { common: entity.common.copy(), data, record: share(&entity.record) }
}

/// A dimension style that wrote its text in a renamed style does so under the
/// new name.
pub open spec fn dim_style_followed(
    before: DimStyle,
    after: DimStyle,
    from: Seq<char>,
    to: Seq<char>,
) -> bool {
    if alike(before.dimtxsty@, from) {
        after.dimtxsty@ == to && after == (DimStyle { dimtxsty: after.dimtxsty, ..before })
    } else {
        after == before
    }
}

/// A text style has another name, and whatever named it does so under the new
/// one: dimension styles, entities with their attributes, and the current style.
pub open spec fn text_style_renamed(
    before: DocumentView,
    after: DocumentView,
    from: Seq<char>,
    to: Seq<char>,
) -> bool {
    seek(before.text_styles, 0, keyed::<TextStyle>(table_key(from))) matches Some(i) && {
        &&& after.text_styles[i].name@ == to
        &&& after.text_styles[i] == (TextStyle {
            name: after.text_styles[i].name,
            ..before.text_styles[i]
        })
        &&& after.header.current_text_style_name@ == (if alike(
            before.header.current_text_style_name@,
            from,
        ) {
            to
        } else {
            before.header.current_text_style_name@
        })
        &&& after.header == (Header {
            current_text_style_name: after.header.current_text_style_name,
            ..before.header
        })
        &&& after.dim_styles.len() == before.dim_styles.len()
        &&& forall|j: int|
            0 <= j < before.dim_styles.len() ==> dim_style_followed(
                #[trigger] before.dim_styles[j],
                after.dim_styles[j],
                from,
                to,
            )
        &&& entities_restyled(TableStyleKind::Text, from, to, before.entities, after.entities)
        &&& after == (DocumentView {
            header: after.header,
            text_styles: before.text_styles.update(i, after.text_styles[i]),
            dim_styles: after.dim_styles,
            entities: after.entities,
            ..before
        })
    }
}

/// A dimension style has another name, and whatever named it does so under the
/// new one: entities and the current style.
pub open spec fn dim_style_renamed(
    before: DocumentView,
    after: DocumentView,
    from: Seq<char>,
    to: Seq<char>,
) -> bool {
    seek(before.dim_styles, 0, keyed::<DimStyle>(table_key(from))) matches Some(i) && {
        &&& after.dim_styles[i].name@ == to
        &&& after.dim_styles[i] == (DimStyle {
            name: after.dim_styles[i].name,
            ..before.dim_styles[i]
        })
        &&& after.header.current_dimstyle_name@ == (if alike(
            before.header.current_dimstyle_name@,
            from,
        ) {
            to
        } else {
            before.header.current_dimstyle_name@
        })
        &&& after.header == (Header {
            current_dimstyle_name: after.header.current_dimstyle_name,
            ..before.header
        })
        &&& entities_restyled(TableStyleKind::Dim, from, to, before.entities, after.entities)
        &&& after == (DocumentView {
            header: after.header,
            dim_styles: before.dim_styles.update(i, after.dim_styles[i]),
            entities: after.entities,
            ..before
        })
    }
}

/// Each entity that named a style names it under its new name.
pub open spec fn entities_restyled(
    kind: TableStyleKind,
    from: Seq<char>,
    to: Seq<char>,
    before: Seq<EntityType>,
    after: Seq<EntityType>,
) -> bool {
    after.len() == before.len() && forall|j: int|
        0 <= j < before.len() ==> entity_restyled(kind, from, to, #[trigger] before[j], after[j])
}

#[verifier::loop_isolation(false)]
fn restyle_all(kind: TableStyleKind, from: &str, to: &str, entities: &Vec<EntityType>) -> (result:
    Vec<EntityType>)
    ensures
        entities_restyled(kind, from@, to@, entities@, result@),
{
    let mut result: Vec<EntityType> = Vec::new();
    let mut i: usize = 0;
    while i < entities.len()
        invariant
            i <= entities.len(),
            result.len() == i,
            forall|j: int|
                0 <= j < i ==> entity_restyled(
                    kind,
                    from@,
                    to@,
                    #[trigger] entities@[j],
                    result@[j],
                ),
        decreases entities.len() - i,
    {
        result.push(restyle(kind, from, to, &entities[i]));
        i = i + 1;
    }
    result
}

impl CadDocument {
    /// Renames a text style and lets whatever named it follow.
    #[verifier::loop_isolation(false)]
    pub(crate) fn rename_text_style(&mut self, from: &str, to: &str)
        requires
            old(self)@.text_style(from@) is Some,
        ensures
            text_style_renamed(old(self)@, final(self)@, from@, to@),
    {
        let ghost before = self@;
        if let Some(index) = find_key(&self.text_styles, from) {
            let mut style = self.text_styles[index].copy();
            style.name = to.to_owned();
            self.text_styles.set(index, style);
        }
        if is_alike(&self.header.current_text_style_name, from) {
            self.header.current_text_style_name = to.to_owned();
        }
        let mut styles: Vec<DimStyle> = Vec::new();
        let mut i: usize = 0;
        while i < self.dim_styles.len()
            invariant
                i <= self.dim_styles.len(),
                styles.len() == i,
                self.dim_styles@ == before.dim_styles,
                forall|j: int|
                    0 <= j < i ==> dim_style_followed(
                        #[trigger] before.dim_styles[j],
                        styles@[j],
                        from@,
                        to@,
                    ),
            decreases self.dim_styles.len() - i,
        {
            let mut style = self.dim_styles[i].copy();
            if is_alike(&style.dimtxsty, from) {
                style.dimtxsty = to.to_owned();
            }
            styles.push(style);
            i = i + 1;
        }
        self.dim_styles = styles;
        self.entities = restyle_all(TableStyleKind::Text, from, to, &self.entities);
    }

    /// Renames a dimension style and lets whatever named it follow.
    pub(crate) fn rename_dim_style(&mut self, from: &str, to: &str)
        requires
            old(self)@.dim_style(from@) is Some,
        ensures
            dim_style_renamed(old(self)@, final(self)@, from@, to@),
    {
        if let Some(index) = find_key(&self.dim_styles, from) {
            let mut style = self.dim_styles[index].copy();
            style.name = to.to_owned();
            self.dim_styles.set(index, style);
        }
        if is_alike(&self.header.current_dimstyle_name, from) {
            self.header.current_dimstyle_name = to.to_owned();
        }
        self.entities = restyle_all(TableStyleKind::Dim, from, to, &self.entities);
    }
}

} // verus!
