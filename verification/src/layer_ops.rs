//! Changes to the layer table that can be undone.

use crate::agree::share;
use crate::attributes::reattribute;
use crate::document::{CadDocument, DocumentView, Header};
use crate::entities::{
    AttributeRecord, EntityCommon, EntityData, EntityType, ExtendedData, ExtendedDataRecord, Insert,
    RawRecord, XDataValue,
};
use crate::geometry::Handle;
use crate::layers::{
    check_config, check_layer, check_linetype, create_fault, delete_fault, is_protected,
    is_same_name, layer_members, layer_outcome, layers_announced, modify_fault, modify_outcome,
    rename_fault, LayerConfig,
};
use crate::naming::validated_layer_name;
use crate::records::{find_key, keyed, normalize, table_key, Layer};
use crate::scene::{erased, SceneView};
use crate::search::{seek, seek_finds};
use crate::session::{recorded, HostSession};
use crate::studio::{layer_made_current, tab_changes, texts, DocumentTab, TabView};
use crate::text::{
    check, fault, is_blank, is_same, join3, number, quote, to_upper, trim, trimmed,
    trimming_is_done,
};
use std::sync::Arc;
use vstd::prelude::*;
use vstd::string::*;

verus! {

/// A name after a layer was renamed.
pub open spec fn followed(name: Seq<char>, key: Seq<char>, to: Seq<char>) -> Seq<char> {
    if table_key(name) == key {
        to
    } else {
        name
    }
}

/// A value of extended data after a layer was renamed.
pub open spec fn value_followed(
    before: XDataValue,
    after: XDataValue,
    key: Seq<char>,
    to: Seq<char>,
) -> bool {
    match before {
        XDataValue::LayerName(name) => after matches XDataValue::LayerName(new) && new@ == followed(
            name@,
            key,
            to,
        ),
        XDataValue::BinaryData(bytes) => after matches XDataValue::BinaryData(new) && new@
            == bytes@,
        _ => after == before,
    }
}

/// A record of extended data after a layer was renamed.
pub open spec fn record_followed(
    before: ExtendedDataRecord,
    after: ExtendedDataRecord,
    key: Seq<char>,
    to: Seq<char>,
) -> bool {
    &&& after.application_name == before.application_name
    &&& after.values@.len() == before.values@.len()
    &&& forall|j: int|
        0 <= j < before.values@.len() ==> value_followed(
            #[trigger] before.values@[j],
            after.values@[j],
            key,
            to,
        )
}

/// Extended data after a layer was renamed: the layer names in it follow.
pub open spec fn data_followed(
    before: ExtendedData,
    after: ExtendedData,
    key: Seq<char>,
    to: Seq<char>,
) -> bool {
    &&& after.raw_dwg_eed@ == before.raw_dwg_eed@
    &&& after.records@.len() == before.records@.len()
    &&& forall|j: int|
        0 <= j < before.records@.len() ==> record_followed(
            #[trigger] before.records@[j],
            after.records@[j],
            key,
            to,
        )
}

/// What all entities have, after a layer was renamed: the layer follows and so do
/// the layer names in extended data, and nothing else changes.
pub open spec fn common_followed(
    before: EntityCommon,
    after: EntityCommon,
    key: Seq<char>,
    to: Seq<char>,
) -> bool {
    &&& after.layer@ == followed(before.layer@, key, to)
    &&& data_followed(*before.extended_data, *after.extended_data, key, to)
    &&& after == (EntityCommon {
        layer: after.layer,
        extended_data: after.extended_data,
        ..before
    })
}

/// An attribute after a layer was renamed.
pub open spec fn attribute_followed(
    before: AttributeRecord,
    after: AttributeRecord,
    key: Seq<char>,
    to: Seq<char>,
) -> bool {
    &&& common_followed(before.common, after.common, key, to)
    &&& after.value == before.value
    &&& after.record == before.record
}

/// Attributes after a layer was renamed.
pub open spec fn attributes_followed(
    before: Seq<AttributeRecord>,
    after: Seq<AttributeRecord>,
    key: Seq<char>,
    to: Seq<char>,
) -> bool {
    after.len() == before.len() && forall|j: int|
        0 <= j < before.len() ==> attribute_followed(#[trigger] before[j], after[j], key, to)
}

/// An entity after a layer was renamed: it follows with the attributes that it
/// stores, and nothing else of it changes.
pub open spec fn entity_followed(
    before: EntityType,
    after: EntityType,
    key: Seq<char>,
    to: Seq<char>,
) -> bool {
    &&& common_followed(before.common, after.common, key, to)
    &&& after.record == before.record
    &&& match before.data {
        EntityData::Insert(old_insert) => after.data matches EntityData::Insert(insert)
            && attributes_followed(old_insert.attributes@, insert.attributes@, key, to)
            && *insert == (Insert { attributes: insert.attributes, ..*old_insert }),
        _ => after.data == before.data,
    }
}

/// A layer has another name, and whatever named it does so under the new one.
pub open spec fn layer_renamed<S, C>(
    before: TabView<S, C>,
    after: TabView<S, C>,
    from: Seq<char>,
    to: Seq<char>,
) -> bool {
    let key = table_key(from);
    let doc = before.scene.document;
    let changed = after.scene.document;
    seek(doc.layers, 0, keyed::<Layer>(key)) matches Some(i) && {
        &&& changed.layers[i].name@ == to
        &&& changed.layers[i] == (Layer { name: changed.layers[i].name, ..doc.layers[i] })
        &&& changed.header.current_layer_name@ == followed(
            doc.header.current_layer_name@,
            key,
            to,
        )
        &&& changed.header == (Header {
            current_layer_name: changed.header.current_layer_name,
            ..doc.header
        })
        &&& changed.entities.len() == doc.entities.len()
        &&& forall|j: int|
            0 <= j < doc.entities.len() ==> entity_followed(
                #[trigger] doc.entities[j],
                changed.entities[j],
                key,
                to,
            )
        &&& changed == (DocumentView {
            header: changed.header,
            layers: doc.layers.update(i, changed.layers[i]),
            entities: changed.entities,
            ..doc
        })
        &&& after == (TabView {
            active_layer: followed(before.active_layer, key, to),
            panel_layer: followed(before.panel_layer, key, to),
            scene: SceneView { document: changed, ..before.scene },
            ..before
        })
    }
}

fn follow(name: &mut String, key: &str, to: &str)
    ensures
        final(name)@ == followed(old(name)@, key@, to@),
        table_key(old(name)@) != key@ ==> *final(name) == *old(name),
{
    if is_same(&normalize(name.as_str()), key) {
        *name = to.to_owned();
    }
}

fn follow_value(value: &XDataValue, key: &str, to: &str) -> (result: XDataValue)
    ensures
        value_followed(*value, result, key@, to@),
{
    match value {
        XDataValue::LayerName(name) => {
            let mut name = name.clone();
            follow(&mut name, key, to);
            XDataValue::LayerName(name)
        },
        XDataValue::String(text) => XDataValue::String(text.clone()),
        XDataValue::ControlString(text) => XDataValue::ControlString(text.clone()),
        XDataValue::BinaryData(bytes) => XDataValue::BinaryData(bytes.clone()),
        XDataValue::Handle(handle) => XDataValue::Handle(*handle),
        XDataValue::Point3D(place) => XDataValue::Point3D(*place),
        XDataValue::Position3D(place) => XDataValue::Position3D(*place),
        XDataValue::Displacement3D(place) => XDataValue::Displacement3D(*place),
        XDataValue::Direction3D(place) => XDataValue::Direction3D(*place),
        XDataValue::Real(number) => XDataValue::Real(*number),
        XDataValue::Distance(number) => XDataValue::Distance(*number),
        XDataValue::ScaleFactor(number) => XDataValue::ScaleFactor(*number),
        XDataValue::Integer16(number) => XDataValue::Integer16(*number),
        XDataValue::Integer32(number) => XDataValue::Integer32(*number),
    }
}

#[verifier::loop_isolation(false)]
fn follow_record(record: &ExtendedDataRecord, key: &str, to: &str) -> (result: ExtendedDataRecord)
    ensures
        record_followed(*record, result, key@, to@),
{
    let values: &Vec<XDataValue> = &record.values;
    let mut result: Vec<XDataValue> = Vec::new();
    let mut i: usize = 0;
    while i < values.len()
        invariant
            i <= values.len(),
            result.len() == i,
            forall|j: int|
                0 <= j < i ==> value_followed(#[trigger] values@[j], result@[j], key@, to@),
        decreases values.len() - i,
    {
        result.push(follow_value(&values[i], key, to));
        i = i + 1;
    }
    ExtendedDataRecord {
        application_name: record.application_name.clone(),
        values: Arc::new(result),
    }
}

#[verifier::loop_isolation(false)]
fn follow_data(data: &ExtendedData, key: &str, to: &str) -> (result: ExtendedData)
    ensures
        data_followed(*data, result, key@, to@),
{
    let mut records: Vec<ExtendedDataRecord> = Vec::new();
    let mut i: usize = 0;
    while i < data.records.len()
        invariant
            i <= data.records.len(),
            records.len() == i,
            forall|j: int|
                0 <= j < i ==> record_followed(
                    #[trigger] data.records@[j],
                    records@[j],
                    key@,
                    to@,
                ),
        decreases data.records.len() - i,
    {
        records.push(follow_record(&data.records[i], key, to));
        i = i + 1;
    }
    let mut raw_dwg_eed: Vec<RawRecord> = Vec::new();
    let mut i: usize = 0;
    while i < data.raw_dwg_eed.len()
        invariant
            i <= data.raw_dwg_eed.len(),
            raw_dwg_eed@ == data.raw_dwg_eed@.take(i as int),
        decreases data.raw_dwg_eed.len() - i,
    {
        raw_dwg_eed.push(data.raw_dwg_eed[i].copy());
        i = i + 1;
        proof {
            assert(raw_dwg_eed@ =~= data.raw_dwg_eed@.take(i as int));
        }
    }
    proof {
        assert(raw_dwg_eed@ =~= data.raw_dwg_eed@);
    }
    ExtendedData { records, raw_dwg_eed }
}

fn follow_common(common: &EntityCommon, key: &str, to: &str) -> (result: EntityCommon)
    ensures
        common_followed(*common, result, key@, to@),
{
    let mut result = common.copy();
    follow(&mut result.layer, key, to);
    result.extended_data = Arc::new(follow_data(&common.extended_data, key, to));
    result
}

#[verifier::loop_isolation(false)]
fn follow_attributes(attributes: &Vec<AttributeRecord>, key: &str, to: &str) -> (result: Vec<
    AttributeRecord,
>)
    ensures
        attributes_followed(attributes@, result@, key@, to@),
{
    let mut result: Vec<AttributeRecord> = Vec::new();
    let mut i: usize = 0;
    while i < attributes.len()
        invariant
            i <= attributes.len(),
            result.len() == i,
            forall|j: int|
                0 <= j < i ==> attribute_followed(
                    #[trigger] attributes@[j],
                    result@[j],
                    key@,
                    to@,
                ),
        decreases attributes.len() - i,
    {
        let attribute = &attributes[i];
        result.push(
            AttributeRecord {
                common: follow_common(&attribute.common, key, to),
                value: share(&attribute.value),
                record: share(&attribute.record),
            },
        );
        i = i + 1;
    }
    result
}

fn follow_entity(entity: &EntityType, key: &str, to: &str) -> (result: EntityType)
    ensures
        entity_followed(*entity, result, key@, to@),
{
    let mut result = match &entity.data {
        EntityData::Insert(insert) => reattribute(
            entity,
            follow_attributes(&insert.attributes, key, to),
        ),
        _ => entity.copy(),
    };
    result.common = follow_common(&entity.common, key, to);
    result
}

impl<S, C> DocumentTab<S, C> {
    /// Renames a layer, and lets whatever named it follow. The result is whether
    /// there was such a layer and the new name was free.
    #[verifier::loop_isolation(false)]
    pub fn rename_layer(&mut self, from: &str, to: &str) -> (result: bool)
        ensures
            result == (old(self)@.scene.document.layer(from@) is Some && (table_key(from@)
                == table_key(to@) || old(self)@.scene.document.layer(to@) is None)),
            result ==> layer_renamed(old(self)@, final(self)@, from@, to@),
            !result ==> final(self)@ == old(self)@,
    {
        let ghost before = self@;
        let ghost doc = self@.scene.document;
        let index: usize = match find_key(&self.scene.document.layers, from) {
            Some(index) => index,
            None => {
                return false;
            },
        };
        let key = normalize(from);
        if !is_same(&normalize(to), &key) && self.scene.document.get_layer(to).is_some() {
            return false;
        }
        let mut layer = self.scene.document.layers[index].copy();
        layer.name = to.to_owned();
        self.scene.document.layers.set(index, layer);
        follow(&mut self.scene.document.header.current_layer_name, &key, to);
        follow(&mut self.active_layer, &key, to);
        follow(&mut self.panel_layer, &key, to);
        let mut i: usize = 0;
        let ghost base = self@;
        while i < self.scene.document.entities.len()
            invariant
                i <= self.scene.document.entities.len(),
                self.scene.document.entities.len() == doc.entities.len(),
                forall|j: int|
                    0 <= j < i ==> entity_followed(
                        #[trigger] doc.entities[j],
                        self@.scene.document.entities[j],
                        key@,
                        to@,
                    ),
                forall|j: int|
                    i <= j < doc.entities.len() ==> self@.scene.document.entities[j]
                        == doc.entities[j],
                self@ == (TabView {
                    scene: SceneView {
                        document: DocumentView {
                            entities: self@.scene.document.entities,
                            ..base.scene.document
                        },
                        ..base.scene
                    },
                    ..base
                }),
            decreases self.scene.document.entities.len() - i,
        {
            let entity = follow_entity(&self.scene.document.entities[i], &key, to);
            self.scene.document.entities.set(i, entity);
            i = i + 1;
        }
        true
    }
}

/// What deleting a layer leaves of a scene: the layer is out of the table, and
/// the entities on it are erased.
pub open spec fn layer_deleted(scene: SceneView, name: Seq<char>) -> SceneView {
    let doc = scene.document;
    let i = seek(doc.layers, 0, keyed::<Layer>(table_key(name)))->Some_0;
    let without = SceneView {
        document: DocumentView { layers: doc.layers.remove(i), ..doc },
        ..scene
    };
    let members = layer_members(doc.entities, name);
    if members.len() == 0 {
        without
    } else {
        erased(without, members)
    }
}

/// The handles of the entities on a layer.
#[verifier::loop_isolation(false)]
fn members_of(doc: &CadDocument, name: &str) -> (result: Vec<Handle>)
    ensures
        result@ == layer_members(doc@.entities, name@),
{
    let key = to_upper(name);
    let mut members: Vec<Handle> = Vec::new();
    let mut i: usize = 0;
    while i < doc.entities.len()
        invariant
            i <= doc.entities.len(),
            members@ == layer_members(doc@.entities.take(i as int), name@),
        decreases doc.entities.len() - i,
    {
        proof {
            assert(doc@.entities.take(i + 1).drop_last() =~= doc@.entities.take(i as int));
        }
        if is_same(&to_upper(&doc.entities[i].common.layer), &key) {
            members.push(doc.entities[i].common.handle);
        }
        i = i + 1;
        proof {
            assert(members@ =~= layer_members(doc@.entities.take(i as int), name@));
        }
    }
    proof {
        assert(doc@.entities.take(i as int) =~= doc@.entities);
    }
    members
}

fn has_bar(text: &str) -> (result: bool)
    ensures
        result == text@.contains('|'),
{
    let length: usize = text.unicode_len();
    let mut i: usize = 0;
    while i < length
        invariant
            i <= length,
            length == text@.len(),
            forall|j: int| 0 <= j < i ==> text@[j] != '|',
        decreases length - i,
    {
        if text.get_char(i) == '|' {
            return true;
        }
        i = i + 1;
    }
    false
}

impl<'a, S, C> HostSession<'a, S, C> {
    /// Creates a layer.
    pub(crate) fn create_layer(&mut self, config: LayerConfig) -> (result: Result<Handle, String>)
        requires
            old(self).valid(),
            old(self).doc().spare(old(self).state().standard_linetypes.len() as int + 1),
        ensures
            fault(result) == create_fault(
                old(self).doc(),
                old(self).state().standard_linetypes,
                config,
            ),
            result is Err ==> final(self).state() == old(self).state(),
            result matches Ok(handle) ==> layer_outcome(
                recorded(old(self).state(), old(self).tab as int, "Create layer"@),
                final(self).state(),
                old(self).tab as int,
                old(self).doc_store is Some,
                config,
                Some(handle),
            ),
            final(self).continues(*old(self)),
            final(self).valid(),
            *final(final(self).app) == *final(old(self).app),
    {
        let tab: usize = self.tab;
        proof {
            trimming_is_done(config.name@);
        }
        let name = validated_layer_name(&config.name)?;
        check(
            self.app.tabs[tab].scene.document.get_layer(&name).is_none(),
            &join3("layer ", &quote(&name), " already exists"),
        )?;
        check_config(&config)?;
        check_linetype(
            &self.app.tabs[tab].scene.document,
            &self.app.standard_linetypes,
            &config,
        )?;
        self.push_undo("Create layer");
        match self.add_layer(config) {
            Some(handle) => Ok(handle),
            None => Err("the layer could not be created".to_owned()),
        }
    }

    /// Changes a layer.
    pub(crate) fn change_layer(&mut self, config: LayerConfig) -> (result: Result<Handle, String>)
        requires
            old(self).valid(),
            old(self).doc().spare(old(self).state().standard_linetypes.len() as int),
        ensures
            fault(result) == modify_fault(
                old(self).doc(),
                old(self).state().standard_linetypes,
                config,
            ),
            result is Err ==> final(self).state() == old(self).state(),
            result matches Ok(handle) ==> (old(self).doc().layer(
                trimmed(config.name@),
            ) matches Some(layer) && layer.handle == handle) && modify_outcome(
                recorded(old(self).state(), old(self).tab as int, "Modify layer"@),
                final(self).state(),
                old(self).tab as int,
                old(self).doc_store is Some,
                config,
                true,
            ),
            final(self).continues(*old(self)),
            final(self).valid(),
            *final(final(self).app) == *final(old(self).app),
    {
        let tab: usize = self.tab;
        proof {
            trimming_is_done(config.name@);
        }
        let name = trim(&config.name);
        let handle = check_layer(&self.app.tabs[tab].scene.document, name)?;
        check(
            config.color.is_some() || config.linetype.is_some() || config.lineweight.is_some()
                || config.off.is_some() || config.frozen.is_some() || config.locked.is_some()
                || config.plottable.is_some() || config.transparency.is_some()
                || config.description.is_some(),
            "no layer properties to change",
        )?;
        check_config(&config)?;
        let freezes = match config.frozen {
            Some(frozen) => frozen,
            None => false,
        };
        check(
            !freezes || !is_same_name(
                &self.app.tabs[tab].scene.document.header.current_layer_name,
                name,
            ),
            "the current layer cannot be frozen",
        )?;
        check_linetype(
            &self.app.tabs[tab].scene.document,
            &self.app.standard_linetypes,
            &config,
        )?;
        check(!is_blank(name), "the layer could not be changed")?;
        self.push_undo("Modify layer");
        if self.modify_layer(config) {
            Ok(handle)
        } else {
            Err("the layer could not be changed".to_owned())
        }
    }

    /// Renames a layer.
    pub(crate) fn rename_layer(&mut self, from: &str, to: &str) -> (result: Result<Handle, String>)
        requires
            old(self).valid(),
        ensures
            fault(result) == rename_fault(old(self).doc(), from@, to@),
            result is Err ==> final(self).state() == old(self).state(),
            result matches Ok(handle) ==> {
                let tab = old(self).tab as int;
                let before = recorded(old(self).state(), tab, "Rename layer"@);
                &&& old(self).doc().layer(trimmed(from@)) matches Some(layer) && layer.handle
                    == handle
                &&& exists|view: TabView<S, C>| #[trigger]
                    layer_renamed(before.tabs[tab], view, trimmed(from@), trimmed(to@))
                        && final(self).state() == layers_announced(
                        before.with_tab(tab, view),
                        tab,
                        old(self).doc_store is Some,
                        seq![trimmed(from@), trimmed(to@)],
                    )
            },
            final(self).continues(*old(self)),
            final(self).valid(),
            *final(final(self).app) == *final(old(self).app),
    {
        let tab: usize = self.tab;
        let old_name = trim(from);
        let handle = check_layer(&self.app.tabs[tab].scene.document, old_name)?;
        check(
            !is_protected(from),
            &join3("layer ", &quote(old_name), " cannot be renamed"),
        )?;
        let new_name = validated_layer_name(to)?;
        check(
            !is_same(old_name, &new_name),
            "the new layer name is the same as the current one",
        )?;
        let free = self.app.tabs[tab].scene.document.get_layer(&new_name).is_none();
        check(
            is_same_name(from, &new_name) || free,
            &join3("layer ", &quote(&new_name), " already exists"),
        )?;
        check(
            is_same(&normalize(old_name), &normalize(&new_name)) || free,
            "the layer could not be renamed",
        )?;
        self.push_undo("Rename layer");
        let ghost before = self.state();
        let ghost tabs = self.app.tabs@;
        proof {
            assert(tabs[tab as int]@ == before.tabs[tab as int]);
        }
        let renamed = self.app.tabs[tab].rename_layer(old_name, &new_name);
        let ghost view = self.app.tabs@[tab as int]@;
        proof {
            assert(renamed);
            assert(layer_renamed(before.tabs[tab as int], view, old_name@, new_name@));
            tab_changes(tabs, self.app.tabs@, tab as int);
        }
        let mut names: Vec<String> = Vec::new();
        names.push(old_name.to_owned());
        names.push(new_name);
        proof {
            assert(texts(names@) =~= seq![trimmed(from@), trimmed(to@)]);
        }
        self.finish_layer_change(names);
        Ok(handle)
    }

    /// Deletes a layer, and where that is asked for the entities on it.
    pub(crate) fn delete_layer(&mut self, name: &str, erase_objects: bool) -> (result: Result<
        Handle,
        String,
    >)
        requires
            old(self).valid(),
        ensures
            fault(result) == delete_fault(old(self).doc(), name@, erase_objects),
            result is Err ==> final(self).state() == old(self).state(),
            result matches Ok(handle) ==> {
                let tab = old(self).tab as int;
                let before = recorded(old(self).state(), tab, "Delete layer"@);
                &&& old(self).doc().layer(trimmed(name@)) matches Some(layer) && layer.handle
                    == handle
                &&& final(self).state() == layers_announced(
                    before.with_tab(
                        tab,
                        TabView {
                            scene: layer_deleted(before.tabs[tab].scene, trimmed(name@)),
                            ..before.tabs[tab]
                        },
                    ),
                    tab,
                    old(self).doc_store is Some,
                    seq![trimmed(name@)],
                )
            },
            final(self).continues(*old(self)),
            final(self).valid(),
            *final(final(self).app) == *final(old(self).app),
    {
        let tab: usize = self.tab;
        let name = trim(name);
        let handle = check_layer(&self.app.tabs[tab].scene.document, name)?;
        check(!is_protected(name), &join3("layer ", &quote(name), " cannot be deleted"))?;
        check(
            !is_same_name(&self.app.tabs[tab].scene.document.header.current_layer_name, name),
            "the current layer cannot be deleted",
        )?;
        check(!has_bar(name), "an externally referenced layer cannot be deleted")?;
        let members = members_of(&self.app.tabs[tab].scene.document, name);
        check(
            members.len() == 0 || erase_objects,
            &join3(
                &join3("layer ", &quote(name), " still holds "),
                &number(members.len() as u64),
                " object(s); pass erase_objects=True to erase them with the layer",
            ),
        )?;
        self.push_undo("Delete layer");
        let ghost before = self.state();
        let ghost tabs = self.app.tabs@;
        if let Some(index) = find_key(&self.app.tabs[tab].scene.document.layers, name) {
            self.app.tabs[tab].scene.document.layers.remove(index);
        }
        if members.len() > 0 {
            self.app.tabs[tab].scene.erase_entities(&members);
        }
        proof {
            tab_changes(tabs, self.app.tabs@, tab as int);
        }
        let mut names: Vec<String> = Vec::new();
        names.push(name.to_owned());
        proof {
            assert(texts(names@) =~= seq![name@]);
        }
        self.finish_layer_change(names);
        Ok(handle)
    }

    /// Makes a layer the current one.
    pub(crate) fn make_layer_current(&mut self, name: &str) -> (result: Result<Handle, String>)
        requires
            old(self).valid(),
        ensures
            fault(result) == crate::layers::layer_fault(old(self).doc(), trimmed(name@)),
            result is Err ==> final(self).state() == old(self).state(),
            result matches Ok(handle) ==> old(self).doc().layer(trimmed(name@)) matches Some(layer)
                && layer.handle == handle && layer_made_current(
                old(self).state(),
                final(self).state(),
                old(self).tab as int,
                layer.name@,
            ),
            final(self).continues(*old(self)),
            final(self).valid(),
            *final(final(self).app) == *final(old(self).app),
    {
        let tab: usize = self.tab;
        let name = trim(name);
        let handle = check_layer(&self.app.tabs[tab].scene.document, name)?;
        let stored = match self.app.tabs[tab].scene.document.get_layer(name) {
            Some(layer) => layer.name.clone(),
            None => name.to_owned(),
        };
        proof {
            let doc = self.doc();
            seek_finds(doc.layers, 0, keyed::<Layer>(table_key(name@)));
            assert(table_key(stored@) == table_key(name@));
        }
        self.app.set_current_layer_name(tab, &stored)?;
        Ok(handle)
    }
}

} // verus!
