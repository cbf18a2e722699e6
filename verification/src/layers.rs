//! The layer table.

use crate::document::{CadDocument, DocumentView};
use crate::entities::{Color, EntityType};
use crate::geometry::Handle;
use crate::naming::symbol_fault;
use crate::records::{find_key, keyed, table_key, Layer, LineType, LineWeight, Transparency};
use crate::search::{pick, seek, seek_finds};
use crate::session::{dirtied, published, with_document, HostSession};
use crate::studio::{tab_changes, texts, EventView, HostEvent, StudioView};
use crate::text::{
    alike, blank, check, decimal, fault, first, is_alike, is_blank, is_same, join3, quote, quoted,
    to_upper, trim, trimmed, trimming_is_done, unless, upper, Fault,
};
use std::sync::Arc;
use vstd::prelude::*;
use vstd::string::*;

verus! {

/// The properties that a plugin asks for in a layer. What it leaves out takes a
/// default in a new layer, and stays as it is in an old one.
pub struct LayerConfig {
    pub name: String,
    pub color: Option<Color>,
    pub linetype: Option<String>,
    pub lineweight: Option<LineWeight>,
    pub off: Option<bool>,
    pub frozen: Option<bool>,
    pub locked: Option<bool>,
    pub plottable: Option<bool>,
    pub transparency: Option<Transparency>,
    pub description: Option<String>,
}

impl LayerConfig {
    /// A config that asks for nothing.
    pub fn named(name: &str) -> (result: Self)
        ensures
            result.name@ == name@,
            result.color is None && result.linetype is None && result.lineweight is None,
            result.off is None && result.frozen is None && result.locked is None,
            result.plottable is None && result.transparency is None,
            result.description is None,
    {
        LayerConfig {
            name: name.to_owned(),
            color: None,
            linetype: None,
            lineweight: None,
            off: None,
            frozen: None,
            locked: None,
            plottable: None,
            transparency: None,
            description: None,
        }
    }

    /// The config asks for nothing.
    pub open spec fn idle(self) -> bool {
        &&& self.color is None && self.linetype is None && self.lineweight is None
        &&& self.off is None && self.frozen is None && self.locked is None
        &&& self.plottable is None && self.transparency is None && self.description is None
    }
}

/// The drawing with the standard linetypes that it lacked, each under a handle
/// of its own.
pub open spec fn loaded(doc: DocumentView, standard: Seq<LineType>) -> DocumentView
    decreases standard.len(),
{
    if standard.len() == 0 {
        doc
    } else {
        let before = loaded(doc, standard.drop_last());
        let last = standard.last();
        if before.line_type(last.name@) is Some {
            before
        } else {
            DocumentView {
                next_handle: (before.next_handle + 1) as u64,
                line_types: before.line_types.push(
                    LineType { handle: Handle { value: before.next_handle }, ..last },
                ),
                ..before
            }
        }
    }
}

/// The drawing in which a linetype is looked up: the standard ones are loaded
/// where it is not there yet.
pub open spec fn consulted(doc: DocumentView, standard: Seq<LineType>, name: Seq<char>) -> DocumentView {
    if doc.line_type(name) is Some {
        doc
    } else {
        loaded(doc, standard)
    }
}

/// The linetype with a name, as far as the drawing can have it.
pub open spec fn resolved(doc: DocumentView, standard: Seq<LineType>, name: Seq<char>) -> Option<
    LineType,
> {
    consulted(doc, standard, name).line_type(name)
}

/// Loading standard linetypes changes nothing else, and takes few handles.
pub proof fn loading_keeps_the_rest(doc: DocumentView, standard: Seq<LineType>)
    requires
        doc.spare(standard.len() as int),
    ensures
        loaded(doc, standard) == (DocumentView {
            next_handle: loaded(doc, standard).next_handle,
            line_types: loaded(doc, standard).line_types,
            ..doc
        }),
        doc.next_handle <= loaded(doc, standard).next_handle <= doc.next_handle + standard.len(),
    decreases standard.len(),
{
    if standard.len() > 0 {
        loading_keeps_the_rest(doc, standard.drop_last());
    }
}

/// A linetype can be had where the drawing has it or it is a standard one.
pub proof fn loading_supplies(doc: DocumentView, standard: Seq<LineType>, name: Seq<char>)
    requires
        doc.spare(standard.len() as int),
    ensures
        loaded(doc, standard).line_type(name) is Some <==> (doc.line_type(name) is Some || pick(
            standard,
            keyed::<LineType>(table_key(name)),
        ) is Some),
    decreases standard.len(),
{
    let test = keyed::<LineType>(table_key(name));
    seek_finds(standard, 0, test);
    if standard.len() > 0 {
        let front = standard.drop_last();
        let last = standard.last();
        loading_supplies(doc, front, name);
        loading_keeps_the_rest(doc, front);
        seek_finds(front, 0, test);
        let before = loaded(doc, front);
        let after = loaded(doc, standard);
        seek_finds(before.line_types, 0, test);
        seek_finds(after.line_types, 0, test);
        seek_finds(before.line_types, 0, keyed::<LineType>(table_key(last.name@)));
        if let Some(i) = seek(front, 0, test) {
            assert(test(standard[i]));
        }
        if let Some(i) = seek(standard, 0, test) {
            if i < front.len() {
                assert(test(front[i]));
            }
        }
        if let Some(i) = seek(before.line_types, 0, test) {
            assert(test(after.line_types[i]));
        }
        if before.line_type(last.name@) is None {
            let added = after.line_types[before.line_types.len() as int];
            assert(added.name == last.name);
            if test(last) {
                assert(test(added));
            }
            if let Some(i) = seek(after.line_types, 0, test) {
                if i < before.line_types.len() {
                    assert(test(before.line_types[i]));
                } else {
                    assert(test(last));
                    assert(test(standard[standard.len() - 1]));
                }
            }
        } else if test(last) {
            let i = seek(before.line_types, 0, keyed::<LineType>(table_key(last.name@)))->Some_0;
            assert(test(before.line_types[i]));
        }
    }
}

impl CadDocument {
    /// Loads the standard linetypes that the drawing lacks.
    pub fn load_linetypes(&mut self, standard: &Vec<LineType>)
        requires
            old(self)@.spare(standard.len() as int),
        ensures
            final(self)@ == loaded(old(self)@, standard@),
    {
        let ghost before = self@;
        let mut i: usize = 0;
        proof {
            assert(standard@.take(0) =~= Seq::empty());
        }
        while i < standard.len()
            invariant
                i <= standard.len(),
                self@ == loaded(before, standard@.take(i as int)),
                before.spare(standard.len() as int),
            decreases standard.len() - i,
        {
            proof {
                let next = standard@.take(i + 1);
                assert(next.drop_last() =~= standard@.take(i as int));
                loading_keeps_the_rest(before, standard@.take(i as int));
            }
            if self.get_line_type(&standard[i].name).is_none() {
                let handle = self.allocate_handle();
                let mut linetype = standard[i].copy();
                linetype.handle = handle;
                self.line_types.push(linetype);
            }
            i = i + 1;
        }
        proof {
            assert(standard@.take(i as int) =~= standard@);
        }
    }

    /// The stored spelling of a linetype, with the standard ones loaded first
    /// where it is not there yet.
    pub fn resolve_linetype(&mut self, standard: &Vec<LineType>, name: &str) -> (result: Option<
        String,
    >)
        requires
            old(self)@.spare(standard.len() as int),
        ensures
            final(self)@ == consulted(old(self)@, standard@, name@),
            match (result, resolved(old(self)@, standard@, name@)) {
                (Some(spelling), Some(linetype)) => spelling@ == linetype.name@,
                (None, None) => true,
                _ => false,
            },
    {
        if let Some(linetype) = self.get_line_type(name) {
            return Some(linetype.name.clone());
        }
        self.load_linetypes(standard);
        match self.get_line_type(name) {
            Some(linetype) => Some(linetype.name.clone()),
            None => None,
        }
    }
}

/// A new layer as a config asks for it.
pub open spec fn configured(
    layer: Layer,
    handle: Handle,
    name: Seq<char>,
    line_type: Seq<char>,
    config: LayerConfig,
) -> bool {
    &&& layer.handle == handle
    &&& layer.name@ == name
    &&& layer.color == config.color.unwrap_or(Color::Index(7))
    &&& layer.color_name is None
    &&& layer.book_name is None
    &&& layer.line_type@ == line_type
    &&& layer.line_weight == config.lineweight.unwrap_or(LineWeight::ByLayer)
    &&& layer.off == config.off.unwrap_or(false)
    &&& layer.frozen == config.frozen.unwrap_or(false)
    &&& layer.locked == config.locked.unwrap_or(false)
    &&& layer.is_plottable == config.plottable.unwrap_or(true)
    &&& layer.transparency == config.transparency.unwrap_or(Transparency::ByLayer)
    &&& layer.description@ == (match config.description {
        Some(text) => text@,
        None => ""@,
    })
    &&& layer.record@ == Seq::<u8>::empty()
}

/// The application after layers changed: the drawing is changed since it was
/// saved, whatever depends on the layers is out of date, and plugins know.
pub open spec fn layers_announced<S, C>(
    state: StudioView<S, C>,
    tab: int,
    open: bool,
    names: Seq<Seq<char>>,
) -> StudioView<S, C> {
    published(
        dirtied(state, tab).with_event(EventView::LayersChanged(tab as usize, names)).with_event(
            EventView::LayerPanelChanged,
        ),
        tab,
        open,
    )
}

/// The linetype of a new layer: the one that is asked for, or else `Continuous`.
pub open spec fn linetype_for(
    doc: DocumentView,
    standard: Seq<LineType>,
    config: LayerConfig,
) -> Option<Seq<char>> {
    match config.linetype {
        Some(name) => match resolved(doc, standard, name@) {
            Some(linetype) => Some(linetype.name@),
            None => None,
        },
        None => Some("Continuous"@),
    }
}

/// The drawing after the linetype of a config was looked up.
pub open spec fn consulted_for(
    doc: DocumentView,
    standard: Seq<LineType>,
    config: LayerConfig,
) -> DocumentView {
    match config.linetype {
        Some(name) => consulted(doc, standard, name@),
        None => doc,
    }
}

/// What adding a layer comes to.
pub open spec fn layer_outcome<S, C>(
    before: StudioView<S, C>,
    after: StudioView<S, C>,
    tab: int,
    open: bool,
    config: LayerConfig,
    result: Option<Handle>,
) -> bool {
    let doc = before.tabs[tab].scene.document;
    let name = trimmed(config.name@);
    let ready = consulted_for(doc, before.standard_linetypes, config);
    if blank(config.name@) || doc.layer(name) is Some {
        result is None && after == before
    } else {
        match linetype_for(doc, before.standard_linetypes, config) {
            None => result is None && after == with_document(before, tab, ready),
            Some(line_type) => {
                let handle = Handle { value: ready.next_handle };
                let changed = after.tabs[tab].scene.document;
                &&& result == Some(handle)
                &&& changed == (DocumentView {
                    next_handle: (ready.next_handle + 1) as u64,
                    layers: doc.layers.push(changed.layers.last()),
                    ..ready
                })
                &&& configured(changed.layers.last(), handle, name, line_type, config)
                &&& after == layers_announced(
                    with_document(before, tab, changed),
                    tab,
                    open,
                    seq![name],
                )
            },
        }
    }
}

fn copy_string(text: &Option<String>) -> (result: String)
    ensures
        result@ == (match *text {
            Some(value) => value@,
            None => ""@,
        }),
{
    match text {
        Some(value) => value.clone(),
        None => "".to_owned(),
    }
}

impl<'a, S, C> HostSession<'a, S, C> {
    /// Tells everyone concerned that layers changed.
    pub(crate) fn finish_layer_change(&mut self, names: Vec<String>)
        requires
            old(self).valid(),
        ensures
            final(self).state() == layers_announced(
                old(self).state(),
                old(self).tab as int,
                old(self).doc_store is Some,
                texts(names@),
            ),
            final(self).continues(*old(self)),
            final(self).valid(),
            *final(final(self).app) == *final(old(self).app),
    {
        let ghost before = self.state();
        let ghost tabs = self.app.tabs@;
        let tab: usize = self.tab;
        self.app.tabs[tab].dirty = true;
        self.app.events.push(HostEvent::LayersChanged(tab, names));
        self.app.events.push(HostEvent::LayerPanelChanged);
        proof {
            tab_changes(tabs, self.app.tabs@, tab as int);
            assert(self.state().events =~= before.events.push(
                EventView::LayersChanged(tab, texts(names@)),
            ).push(EventView::LayerPanelChanged));
        }
        self.publish_document_view();
    }

    /// Adds a layer. The result is its handle, or none where the name is blank or
    /// taken, or the linetype cannot be had.
    pub fn add_layer(&mut self, config: LayerConfig) -> (result: Option<Handle>)
        requires
            old(self).valid(),
            old(self).doc().spare(old(self).state().standard_linetypes.len() as int + 1),
        ensures
            layer_outcome(
                old(self).state(),
                final(self).state(),
                old(self).tab as int,
                old(self).doc_store is Some,
                config,
                result,
            ),
            final(self).continues(*old(self)),
            final(self).valid(),
            *final(final(self).app) == *final(old(self).app),
    {
        let ghost before = self.state();
        let ghost doc = self.doc();
        let ghost tabs = self.app.tabs@;
        let tab: usize = self.tab;
        proof {
            trimming_is_done(config.name@);
            loading_keeps_the_rest(doc, before.standard_linetypes);
        }
        if is_blank(&config.name) {
            return None;
        }
        let name = trim(&config.name);
        if self.app.tabs[tab].scene.document.get_layer(name).is_some() {
            return None;
        }
        let line_type: Option<String> = match &config.linetype {
            Some(asked) => self.app.tabs[tab].scene.document.resolve_linetype(
                &self.app.standard_linetypes,
                asked,
            ),
            None => Some("Continuous".to_owned()),
        };
        proof {
            tab_changes(tabs, self.app.tabs@, tab as int);
            assert(self.state().tabs =~= with_document(before, tab as int, self.doc()).tabs);
        }
        let line_type = match line_type {
            Some(line_type) => line_type,
            None => {
                return None;
            },
        };
        let ghost ready = self.doc();
        let handle = self.app.tabs[tab].scene.document.allocate_handle();
        let layer = Layer {
            handle,
            name: name.to_owned(),
            off: config.off.unwrap_or(false),
            frozen: config.frozen.unwrap_or(false),
            locked: config.locked.unwrap_or(false),
            color: config.color.unwrap_or(Color::Index(7)),
            color_name: None,
            book_name: None,
            line_type,
            line_weight: config.lineweight.unwrap_or(LineWeight::ByLayer),
            is_plottable: config.plottable.unwrap_or(true),
            transparency: config.transparency.unwrap_or(Transparency::ByLayer),
            description: copy_string(&config.description),
            record: Arc::new(Vec::new()),
        };
        self.app.tabs[tab].scene.document.layers.push(layer);
        proof {
            tab_changes(tabs, self.app.tabs@, tab as int);
            assert(self.state().tabs =~= with_document(before, tab as int, self.doc()).tabs);
            assert(self.doc().layers =~= doc.layers.push(self.doc().layers.last()));
        }
        let mut names: Vec<String> = Vec::new();
        names.push(name.to_owned());
        proof {
            assert(texts(names@) =~= seq![name@]);
        }
        self.finish_layer_change(names);
        Some(handle)
    }
}

/// A layer with the properties that a config asks for. What it leaves out stays.
/// A new color is no longer the named one that the layer had.
pub open spec fn modified(
    before: Layer,
    after: Layer,
    line_type: Option<Seq<char>>,
    config: LayerConfig,
) -> bool {
    &&& after.handle == before.handle
    &&& after.name == before.name
    &&& after.record == before.record
    &&& after.color == config.color.unwrap_or(before.color)
    &&& config.color is Some ==> after.color_name is None && after.book_name is None
    &&& config.color is None ==> after.color_name == before.color_name && after.book_name
        == before.book_name
    &&& after.line_type@ == (match line_type {
        Some(spelling) => spelling,
        None => before.line_type@,
    })
    &&& after.line_weight == config.lineweight.unwrap_or(before.line_weight)
    &&& after.off == config.off.unwrap_or(before.off)
    &&& after.frozen == config.frozen.unwrap_or(before.frozen)
    &&& after.locked == config.locked.unwrap_or(before.locked)
    &&& after.is_plottable == config.plottable.unwrap_or(before.is_plottable)
    &&& after.transparency == config.transparency.unwrap_or(before.transparency)
    &&& after.description@ == (match config.description {
        Some(text) => text@,
        None => before.description@,
    })
}

/// The linetype that a config asks for can be had.
pub open spec fn linetype_available(
    doc: DocumentView,
    standard: Seq<LineType>,
    config: LayerConfig,
) -> bool {
    match config.linetype {
        Some(name) => resolved(doc, standard, name@) is Some,
        None => true,
    }
}

/// What changing a layer comes to.
pub open spec fn modify_outcome<S, C>(
    before: StudioView<S, C>,
    after: StudioView<S, C>,
    tab: int,
    open: bool,
    config: LayerConfig,
    result: bool,
) -> bool {
    let doc = before.tabs[tab].scene.document;
    let standard = before.standard_linetypes;
    let name = trimmed(config.name@);
    let ready = consulted_for(doc, standard, config);
    if blank(config.name@) {
        !result && after == before
    } else {
        match seek(doc.layers, 0, keyed::<Layer>(table_key(name))) {
            Some(i) if linetype_available(doc, standard, config) => {
                let changed = after.tabs[tab].scene.document;
                &&& result
                &&& changed == (DocumentView {
                    layers: doc.layers.update(i, changed.layers[i]),
                    ..ready
                })
                &&& modified(
                    doc.layers[i],
                    changed.layers[i],
                    match config.linetype {
                        Some(_) => linetype_for(doc, standard, config),
                        None => None,
                    },
                    config,
                )
                &&& after == layers_announced(
                    with_document(before, tab, changed),
                    tab,
                    open,
                    seq![name],
                )
            },
            _ => !result && after == with_document(before, tab, ready),
        }
    }
}

fn modify(layer: &Layer, line_type: Option<String>, config: &LayerConfig) -> (result: Layer)
    ensures
        modified(
            *layer,
            result,
            match line_type {
                Some(spelling) => Some(spelling@),
                None => None,
            },
            *config,
        ),
{
    let mut changed = layer.copy();
    if let Some(color) = config.color {
        changed.color = color;
        changed.color_name = None;
        changed.book_name = None;
    }
    if let Some(spelling) = line_type {
        changed.line_type = spelling;
    }
    changed.line_weight = config.lineweight.unwrap_or(changed.line_weight);
    changed.off = config.off.unwrap_or(changed.off);
    changed.frozen = config.frozen.unwrap_or(changed.frozen);
    changed.locked = config.locked.unwrap_or(changed.locked);
    changed.is_plottable = config.plottable.unwrap_or(changed.is_plottable);
    changed.transparency = config.transparency.unwrap_or(changed.transparency);
    if let Some(description) = &config.description {
        changed.description = description.clone();
    }
    changed
}

impl<'a, S, C> HostSession<'a, S, C> {
    /// Changes the properties of a layer that a config asks for. The result is
    /// whether there is such a layer and its linetype can be had.
    pub fn modify_layer(&mut self, config: LayerConfig) -> (result: bool)
        requires
            old(self).valid(),
            old(self).doc().spare(old(self).state().standard_linetypes.len() as int),
        ensures
            modify_outcome(
                old(self).state(),
                final(self).state(),
                old(self).tab as int,
                old(self).doc_store is Some,
                config,
                result,
            ),
            final(self).continues(*old(self)),
            final(self).valid(),
            *final(final(self).app) == *final(old(self).app),
    {
        let ghost before = self.state();
        let ghost doc = self.doc();
        let ghost tabs = self.app.tabs@;
        let tab: usize = self.tab;
        proof {
            trimming_is_done(config.name@);
            loading_keeps_the_rest(doc, before.standard_linetypes);
        }
        if is_blank(&config.name) {
            return false;
        }
        let name = trim(&config.name);
        let line_type: Option<String> = match &config.linetype {
            Some(asked) => self.app.tabs[tab].scene.document.resolve_linetype(
                &self.app.standard_linetypes,
                asked,
            ),
            None => None,
        };
        proof {
            tab_changes(tabs, self.app.tabs@, tab as int);
            assert(self.state().tabs =~= with_document(before, tab as int, self.doc()).tabs);
        }
        if config.linetype.is_some() && line_type.is_none() {
            return false;
        }
        let index: usize = match find_key(&self.app.tabs[tab].scene.document.layers, name) {
            Some(index) => index,
            None => {
                return false;
            },
        };
        let changed = modify(
            &self.app.tabs[tab].scene.document.layers[index],
            line_type,
            &config,
        );
        self.app.tabs[tab].scene.document.layers.set(index, changed);
        proof {
            tab_changes(tabs, self.app.tabs@, tab as int);
            assert(self.state().tabs =~= with_document(before, tab as int, self.doc()).tabs);
            assert(self.doc().layers =~= doc.layers.update(
                index as int,
                self.doc().layers[index as int],
            ));
        }
        let mut names: Vec<String> = Vec::new();
        names.push(name.to_owned());
        proof {
            assert(texts(names@) =~= seq![name@]);
        }
        self.finish_layer_change(names);
        true
    }
}

/// Two names are the same but for spaces around them and the case of letters.
pub open spec fn same_name(a: Seq<char>, b: Seq<char>) -> bool {
    upper(trimmed(a)) == upper(trimmed(b))
}

pub(crate) fn is_same_name(a: &str, b: &str) -> (result: bool)
    ensures
        result == same_name(a@, b@),
{
    is_same(&to_upper(trim(a)), &to_upper(trim(b)))
}

/// A layer that every drawing needs.
pub open spec fn protected(name: Seq<char>) -> bool {
    trimmed(name) == "0"@ || alike(trimmed(name), "Defpoints"@)
}

pub(crate) fn is_protected(name: &str) -> (result: bool)
    ensures
        result == protected(name@),
{
    is_same(trim(name), "0") || is_alike(trim(name), "Defpoints")
}

/// Why a config asks for something that no layer can have.
pub open spec fn config_fault(config: LayerConfig) -> Fault {
    first(
        match config.color {
            Some(Color::ByLayer) | Some(Color::ByBlock) | Some(Color::Unset) => Some(
                "a layer color must be an index 1-255 or an RGB value"@,
            ),
            Some(Color::Index(index)) => unless(
                index != 0,
                "a layer color index must be 1-255"@,
            ),
            _ => None,
        },
        match config.lineweight {
            Some(LineWeight::Value(value)) => unless(
                0 <= value <= 211,
                "a layer lineweight must be between 0 and 211 (1/100 mm)"@,
            ),
            _ => None,
        },
    )
}

pub(crate) fn check_config(config: &LayerConfig) -> (result: Result<(), String>)
    ensures
        fault(result) == config_fault(*config),
{
    match config.color {
        Some(Color::ByLayer) | Some(Color::ByBlock) | Some(Color::Unset) => {
            return Err("a layer color must be an index 1-255 or an RGB value".to_owned());
        },
        Some(Color::Index(index)) => {
            check(index != 0, "a layer color index must be 1-255")?;
        },
        _ => {},
    }
    match config.lineweight {
        Some(LineWeight::Value(value)) => check(
            0 <= value && value <= 211,
            "a layer lineweight must be between 0 and 211 (1/100 mm)",
        ),
        _ => Ok(()),
    }
}

/// Why the linetype that a config asks for cannot be had.
pub open spec fn linetype_fault(
    doc: DocumentView,
    standard: Seq<LineType>,
    config: LayerConfig,
) -> Fault {
    match config.linetype {
        Some(name) => unless(
            resolved(doc, standard, name@) is Some,
            "linetype "@ + quoted(name@) + " does not exist in this drawing"@,
        ),
        None => None,
    }
}

pub(crate) fn check_linetype(doc: &CadDocument, standard: &Vec<LineType>, config: &LayerConfig) -> (result:
    Result<(), String>)
    requires
        doc@.spare(standard.len() as int),
    ensures
        fault(result) == linetype_fault(doc@, standard@, *config),
{
    match &config.linetype {
        Some(name) => {
            proof {
                loading_supplies(doc@, standard@, name@);
            }
            check(
                doc.get_line_type(name).is_some() || find_key(standard, name).is_some(),
                &join3("linetype ", &quote(name), " does not exist in this drawing"),
            )
        },
        None => Ok(()),
    }
}

/// Why there is no layer with a name.
pub open spec fn layer_fault(doc: DocumentView, name: Seq<char>) -> Fault {
    unless(doc.layer(name) is Some, "layer "@ + quoted(name) + " does not exist"@)
}

pub(crate) fn check_layer(doc: &CadDocument, name: &str) -> (result: Result<Handle, String>)
    ensures
        fault(result) == layer_fault(doc@, name@),
        result matches Ok(handle) ==> doc@.layer(name@) matches Some(layer) && layer.handle
            == handle,
{
    match doc.get_layer(name) {
        Some(layer) => Ok(layer.handle),
        None => Err(join3("layer ", &quote(name), " does not exist")),
    }
}

/// Why a layer cannot be created.
pub open spec fn create_fault(
    doc: DocumentView,
    standard: Seq<LineType>,
    config: LayerConfig,
) -> Fault {
    first(
        symbol_fault(config.name@, "a layer name"@),
        first(
            unless(
                doc.layer(trimmed(config.name@)) is None,
                "layer "@ + quoted(trimmed(config.name@)) + " already exists"@,
            ),
            first(config_fault(config), linetype_fault(doc, standard, config)),
        ),
    )
}

/// Why a layer cannot be changed as asked.
pub open spec fn modify_fault(
    doc: DocumentView,
    standard: Seq<LineType>,
    config: LayerConfig,
) -> Fault {
    let name = trimmed(config.name@);
    first(
        layer_fault(doc, name),
        first(
            unless(!config.idle(), "no layer properties to change"@),
            first(
                config_fault(config),
                first(
                    unless(
                        config.frozen != Some(true) || !same_name(
                            doc.header.current_layer_name@,
                            name,
                        ),
                        "the current layer cannot be frozen"@,
                    ),
                    first(
                        linetype_fault(doc, standard, config),
                        unless(!blank(name), "the layer could not be changed"@),
                    ),
                ),
            ),
        ),
    )
}

/// Why a layer cannot be renamed.
pub open spec fn rename_fault(doc: DocumentView, from: Seq<char>, to: Seq<char>) -> Fault {
    let old_name = trimmed(from);
    let new_name = trimmed(to);
    first(
        layer_fault(doc, old_name),
        first(
            unless(!protected(from), "layer "@ + quoted(old_name) + " cannot be renamed"@),
            first(
                symbol_fault(to, "a layer name"@),
                first(
                    unless(
                        old_name != new_name,
                        "the new layer name is the same as the current one"@,
                    ),
                    first(
                        unless(
                            same_name(from, new_name) || doc.layer(new_name) is None,
                            "layer "@ + quoted(new_name) + " already exists"@,
                        ),
                        unless(
                            table_key(old_name) == table_key(new_name) || doc.layer(new_name) is None,
                            "the layer could not be renamed"@,
                        ),
                    ),
                ),
            ),
        ),
    )
}

/// The entities on a layer, by name but for the case of letters.
pub open spec fn on_layer(name: Seq<char>) -> spec_fn(EntityType) -> bool {
    |entity: EntityType| upper(entity.common.layer@) == upper(name)
}

/// The handles of the entities on a layer.
pub open spec fn layer_members(entities: Seq<EntityType>, name: Seq<char>) -> Seq<Handle> {
    let members = crate::search::passing(entities, on_layer(name));
    Seq::new(members.len(), |i: int| members[i].common.handle)
}

/// Why a layer cannot be deleted.
pub open spec fn delete_fault(doc: DocumentView, name: Seq<char>, erase_objects: bool) -> Fault {
    let trim_name = trimmed(name);
    let members = layer_members(doc.entities, trim_name);
    first(
        layer_fault(doc, trim_name),
        first(
            unless(
                !protected(trim_name),
                "layer "@ + quoted(trim_name) + " cannot be deleted"@,
            ),
            first(
                unless(
                    !same_name(doc.header.current_layer_name@, trim_name),
                    "the current layer cannot be deleted"@,
                ),
                first(
                    unless(
                        !trim_name.contains('|'),
                        "an externally referenced layer cannot be deleted"@,
                    ),
                    unless(
                        members.len() == 0 || erase_objects,
                        "layer "@ + quoted(trim_name) + " still holds "@ + decimal(
                            members.len(),
                        )
                            + " object(s); pass erase_objects=True to erase them with the layer"@,
                    ),
                ),
            ),
        ),
    )
}

} // verus!
