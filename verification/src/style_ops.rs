//! Changes to the symbol tables that can be undone: layers, text styles and
//! dimension styles.

use crate::agree::Agree;
use crate::dim_styles::{
    apply_dim_style_json, default_dim_style, default_text_style, is_same_dim_style, json_applied,
    json_fault, members, plain_dim_style, rewritten, same_dim_style,
};
use crate::document::{DocumentView, Header};
use crate::geometry::Handle;
use crate::layers::LayerConfig;
use crate::naming::{symbol_fault, validated_symbol_name};
use crate::records::{find_key, keyed, table_key, DimStyle, TextStyle};
use crate::scalar::ONE_BITS;
use crate::scene::redrawn;
use crate::search::{seek, seek_finds};
use crate::session::{dirtied, published, recorded, with_document, with_scene, HostSession};
use crate::style_uses::{dim_style_renamed, style_in_use, text_style_renamed};
use crate::styles::{apply_text_style_config, styled, text_style_fault, TextStyleConfig};
use crate::studio::{tab_changes, EventView, HostEvent, RibbonView, StudioView, TableStyleKind};
use crate::text::{
    alike, check, fault, first, is_alike, join3, quote, quoted, trim, trimmed, unless, Fault,
};
use vstd::prelude::*;
use vstd::string::*;

verus! {

/// A change to a symbol table.
#[allow(inconsistent_fields)]
pub enum TableOperation {
    LayerCreate { config: LayerConfig },
    LayerModify { config: LayerConfig },
    LayerRename { from: String, to: String },
    LayerDelete { name: String, erase_objects: bool },
    LayerSetCurrent { name: String },
    TextStyleCreate { config: TextStyleConfig },
    TextStyleModify { config: TextStyleConfig },
    /// The properties are an object in JSON.
    DimStyleCreate { name: String, copy_from: Option<String>, properties: String },
    DimStyleModify { name: String, properties: String },
    StyleRename { kind: TableStyleKind, from: String, to: String },
    StyleDelete { kind: TableStyleKind, name: String },
    StyleSetCurrent { kind: TableStyleKind, name: String },
}

/// The handle of the style that a table files under a name.
pub open spec fn style_handle(doc: DocumentView, kind: TableStyleKind, name: Seq<char>) -> Option<
    Handle,
> {
    match kind {
        TableStyleKind::Text => match doc.text_style(name) {
            Some(style) => Some(style.handle),
            None => None,
        },
        TableStyleKind::Dim => match doc.dim_style(name) {
            Some(style) => Some(style.handle),
            None => None,
        },
    }
}

/// The name, as it is stored, of the style that a table files under a name.
pub open spec fn stored_name(doc: DocumentView, kind: TableStyleKind, name: Seq<char>) -> Seq<char> {
    match kind {
        TableStyleKind::Text => match doc.text_style(name) {
            Some(style) => style.name@,
            None => name,
        },
        TableStyleKind::Dim => match doc.dim_style(name) {
            Some(style) => style.name@,
            None => name,
        },
    }
}

/// Why there is no style of a kind with a name.
pub open spec fn style_fault(doc: DocumentView, kind: TableStyleKind, name: Seq<char>) -> Fault {
    unless(
        style_handle(doc, kind, name) is Some,
        (match kind {
            TableStyleKind::Text => "text style "@,
            TableStyleKind::Dim => "dimension style "@,
        }) + quoted(name) + " does not exist"@,
    )
}

fn find_style(doc: &crate::document::CadDocument, kind: TableStyleKind, name: &str) -> (result:
    Result<(String, Handle), String>)
    ensures
        fault(result) == style_fault(doc@, kind, name@),
        result matches Ok(found) ==> found.0@ == stored_name(doc@, kind, name@) && Some(found.1)
            == style_handle(doc@, kind, name@),
{
    match kind {
        TableStyleKind::Text => match doc.get_text_style(name) {
            Some(style) => Ok((style.name.clone(), style.handle)),
            None => Err(join3("text style ", &quote(name), " does not exist")),
        },
        TableStyleKind::Dim => match doc.get_dim_style(name) {
            Some(style) => Ok((style.name.clone(), style.handle)),
            None => Err(join3("dimension style ", &quote(name), " does not exist")),
        },
    }
}

/// The application after styles changed: the drawing is changed since it was
/// saved, whatever depends on the styles is out of date, and plugins know.
pub open spec fn styles_announced<S, C>(
    state: StudioView<S, C>,
    tab: int,
    open: bool,
    kind: TableStyleKind,
) -> StudioView<S, C> {
    let marked = dirtied(state, tab).with_event(EventView::StylesChanged(kind));
    published(
        with_scene(
            marked,
            tab,
            redrawn(marked.tabs[tab].scene, marked.tabs[tab].scene.document),
        ),
        tab,
        open,
    )
}

/// A text style as a new drawing has it.
pub open spec fn plain_text_style(style: TextStyle, name: Seq<char>) -> bool {
    &&& style.handle.null()
    &&& style.name@ == name
    &&& style.height.bits == 0
    &&& style.width_factor.bits == ONE_BITS
    &&& style.oblique_angle.bits == 0
    &&& style.font_file@ == "txt"@
    &&& style.big_font_file@ == ""@
    &&& style.true_type_font@ == ""@
    &&& !style.backward && !style.upside_down && !style.is_vertical
    &&& !style.annotative && !style.is_shape_file
    &&& style.record@ == Seq::<u8>::empty()
}

/// A new text style as a config asks for it.
pub open spec fn text_style_created(
    style: TextStyle,
    handle: Handle,
    name: Seq<char>,
    config: TextStyleConfig,
) -> bool {
    &&& style.handle == handle
    &&& exists|base: TextStyle| #[trigger]
        plain_text_style(base, name) && styled(
            base,
            TextStyle { handle: base.handle, ..style },
            config,
        )
}

/// Why a text style cannot be created.
pub open spec fn text_create_fault(doc: DocumentView, config: TextStyleConfig) -> Fault {
    first(
        symbol_fault(config.name@, "a text style name"@),
        first(
            unless(
                doc.text_style(trimmed(config.name@)) is None,
                "text style "@ + quoted(trimmed(config.name@)) + " already exists"@,
            ),
            text_style_fault("txt"@, ""@, config),
        ),
    )
}

/// Why a text style cannot be changed as asked.
pub open spec fn text_modify_fault(doc: DocumentView, config: TextStyleConfig) -> Fault {
    let name = trimmed(config.name@);
    match doc.text_style(name) {
        None => style_fault(doc, TableStyleKind::Text, name),
        Some(style) => first(
            unless(!config.idle(), "no text style properties to change"@),
            text_style_fault(style.font_file@, style.true_type_font@, config),
        ),
    }
}

/// What changing a text style comes to: nothing where the style is already as
/// asked.
pub open spec fn text_modified<S, C>(
    before: StudioView<S, C>,
    after: StudioView<S, C>,
    tab: int,
    open: bool,
    config: TextStyleConfig,
) -> bool {
    let doc = before.tabs[tab].scene.document;
    let name = trimmed(config.name@);
    seek(doc.text_styles, 0, keyed::<TextStyle>(table_key(name))) matches Some(i) && (exists|
        style: TextStyle,
    |
        {
            &&& #[trigger] styled(doc.text_styles[i], style, config)
            &&& after == if style.agrees(doc.text_styles[i]) {
                before
            } else {
                styles_announced(
                    with_document(
                        recorded(before, tab, "Modify text style"@),
                        tab,
                        DocumentView { text_styles: doc.text_styles.update(i, style), ..doc },
                    ),
                    tab,
                    open,
                    TableStyleKind::Text,
                )
            }
        })
}

/// Why a dimension style cannot be created.
pub open spec fn dim_create_fault(
    doc: DocumentView,
    name: Seq<char>,
    copy_from: Option<Seq<char>>,
    properties: Seq<char>,
) -> Fault {
    first(
        symbol_fault(name, "a dimension style name"@),
        first(
            unless(
                doc.dim_style(trimmed(name)) is None,
                "dimension style "@ + quoted(trimmed(name)) + " already exists"@,
            ),
            match copy_from {
                None => json_fault(
                    doc,
                    rewritten(default_dim_style(trimmed(name))),
                    default_text_style(trimmed(name)),
                    properties,
                ),
                Some(source) => match doc.dim_style(trimmed(source)) {
                    None => style_fault(doc, TableStyleKind::Dim, trimmed(source)),
                    Some(base) => json_fault(
                        doc,
                        members(base.properties@),
                        base.dimtxsty@,
                        properties,
                    ),
                },
            },
        ),
    )
}

/// A new dimension style: a copy of another, or else the codec's default, with
/// the properties that are asked for.
pub open spec fn dim_style_created(
    doc: DocumentView,
    style: DimStyle,
    handle: Handle,
    name: Seq<char>,
    copy_from: Option<Seq<char>>,
    properties: Seq<char>,
) -> bool {
    &&& style.handle == handle
    &&& style.name@ == trimmed(name)
    &&& exists|base: DimStyle|
        {
            &&& match copy_from {
                None => plain_dim_style(base, trimmed(name)),
                Some(source) => doc.dim_style(trimmed(source)) == Some(base),
            }
            &&& #[trigger] json_applied(
                doc,
                base,
                DimStyle { handle: base.handle, name: base.name, ..style },
                properties,
            )
        }
}

/// Why a dimension style cannot be changed as asked.
pub open spec fn dim_modify_fault(
    doc: DocumentView,
    name: Seq<char>,
    properties: Seq<char>,
) -> Fault {
    match doc.dim_style(trimmed(name)) {
        None => style_fault(doc, TableStyleKind::Dim, trimmed(name)),
        Some(base) => json_fault(doc, members(base.properties@), base.dimtxsty@, properties),
    }
}

/// What changing a dimension style comes to: nothing where the style is already
/// as asked.
pub open spec fn dim_modified<S, C>(
    before: StudioView<S, C>,
    after: StudioView<S, C>,
    tab: int,
    open: bool,
    name: Seq<char>,
    properties: Seq<char>,
) -> bool {
    let doc = before.tabs[tab].scene.document;
    seek(doc.dim_styles, 0, keyed::<DimStyle>(table_key(trimmed(name)))) matches Some(i) && (exists|
        style: DimStyle,
    |
        {
            &&& #[trigger] json_applied(doc, doc.dim_styles[i], style, properties)
            &&& after == if same_dim_style(style, doc.dim_styles[i]) {
                before
            } else {
                styles_announced(
                    with_document(
                        recorded(before, tab, "Modify dimension style"@),
                        tab,
                        DocumentView { dim_styles: doc.dim_styles.update(i, style), ..doc },
                    ),
                    tab,
                    open,
                    TableStyleKind::Dim,
                )
            }
        })
}

/// Why a style cannot be renamed.
pub open spec fn style_rename_fault(
    doc: DocumentView,
    kind: TableStyleKind,
    from: Seq<char>,
    to: Seq<char>,
) -> Fault {
    let stored = stored_name(doc, kind, trimmed(from));
    first(
        style_fault(doc, kind, trimmed(from)),
        first(
            unless(!alike(stored, "Standard"@), "the Standard style cannot be renamed"@),
            first(
                symbol_fault(to, "a style name"@),
                first(
                    unless(
                        !alike(stored, trimmed(to)),
                        "the new style name matches the current one (a case-only change is not supported)"@,
                    ),
                    unless(
                        style_handle(doc, kind, trimmed(to)) is None,
                        "style "@ + quoted(trimmed(to)) + " already exists"@,
                    ),
                ),
            ),
        ),
    )
}

/// A style of a kind has another name, and whatever named it follows.
pub open spec fn style_renamed(
    before: DocumentView,
    after: DocumentView,
    kind: TableStyleKind,
    from: Seq<char>,
    to: Seq<char>,
) -> bool {
    match kind {
        TableStyleKind::Text => text_style_renamed(before, after, from, to),
        TableStyleKind::Dim => dim_style_renamed(before, after, from, to),
    }
}

/// Why a style cannot be deleted.
pub open spec fn style_delete_fault(
    doc: DocumentView,
    kind: TableStyleKind,
    name: Seq<char>,
) -> Fault {
    let stored = stored_name(doc, kind, trimmed(name));
    first(
        style_fault(doc, kind, trimmed(name)),
        first(
            unless(!alike(stored, "Standard"@), "the Standard style cannot be deleted"@),
            unless(
                !style_in_use(doc, kind, stored),
                "style "@ + quoted(stored) + " is current or still in use"@,
            ),
        ),
    )
}

/// The drawing without a style.
pub open spec fn style_removed(
    doc: DocumentView,
    kind: TableStyleKind,
    name: Seq<char>,
) -> DocumentView {
    match kind {
        TableStyleKind::Text => DocumentView {
            text_styles: doc.text_styles.remove(
                seek(doc.text_styles, 0, keyed::<TextStyle>(table_key(name)))->Some_0,
            ),
            ..doc
        },
        TableStyleKind::Dim => DocumentView {
            dim_styles: doc.dim_styles.remove(
                seek(doc.dim_styles, 0, keyed::<DimStyle>(table_key(name)))->Some_0,
            ),
            ..doc
        },
    }
}

/// What making a style current comes to.
pub open spec fn style_made_current<S, C>(
    before: StudioView<S, C>,
    after: StudioView<S, C>,
    tab: int,
    kind: TableStyleKind,
    name: Seq<char>,
    handle: Handle,
) -> bool {
    let doc = before.tabs[tab].scene.document;
    let header = after.tabs[tab].scene.document.header;
    &&& match kind {
        TableStyleKind::Text => header.current_text_style_name@ == name && header == (Header {
            current_text_style_name: header.current_text_style_name,
            current_text_style_handle: handle,
            ..doc.header
        }),
        TableStyleKind::Dim => header.current_dimstyle_name@ == name && header == (Header {
            current_dimstyle_name: header.current_dimstyle_name,
            current_dimstyle_handle: handle,
            ..doc.header
        }),
    }
    &&& after == (StudioView {
        ribbon: match kind {
            TableStyleKind::Text => RibbonView { active_text_style: name, ..before.ribbon },
            TableStyleKind::Dim => RibbonView { active_dim_style: name, ..before.ribbon },
        },
        ..dirtied(with_document(before, tab, DocumentView { header, ..doc }), tab)
    })
}

impl<'a, S, C> HostSession<'a, S, C> {
    /// Tells everyone concerned that styles changed.
    fn finish_style_change(&mut self, kind: TableStyleKind)
        requires
            old(self).valid(),
        ensures
            final(self).state() == styles_announced(
                old(self).state(),
                old(self).tab as int,
                old(self).doc_store is Some,
                kind,
            ),
            final(self).continues(*old(self)),
            final(self).valid(),
            *final(final(self).app) == *final(old(self).app),
    {
        let ghost before = self.state();
        let ghost tabs = self.app.tabs@;
        let tab: usize = self.tab;
        self.app.tabs[tab].dirty = true;
        self.app.events.push(HostEvent::StylesChanged(kind));
        self.app.tabs[tab].scene.bump_geometry();
        proof {
            tab_changes(tabs, self.app.tabs@, tab as int);
            assert(self.state().events =~= before.events.push(EventView::StylesChanged(kind)));
            let marked = dirtied(before, tab as int).with_event(EventView::StylesChanged(kind));
            assert(self.state().tabs =~= with_scene(
                marked,
                tab as int,
                redrawn(marked.tabs[tab as int].scene, marked.tabs[tab as int].scene.document),
            ).tabs);
        }
        self.publish_document_view();
    }

    pub(crate) fn create_text_style(&mut self, config: TextStyleConfig) -> (result: Result<Handle, String>)
        requires
            old(self).valid(),
            old(self).doc().spare(1),
        ensures
            fault(result) == text_create_fault(old(self).doc(), config),
            result is Err ==> final(self).state() == old(self).state(),
            result matches Ok(handle) ==> {
                let doc = old(self).doc();
                let tab = old(self).tab as int;
                &&& handle.value == doc.next_handle
                &&& exists|style: TextStyle| #[trigger]
                    text_style_created(style, handle, trimmed(config.name@), config)
                        && final(self).state() == styles_announced(
                        with_document(
                            recorded(old(self).state(), tab, "Create text style"@),
                            tab,
                            DocumentView {
                                next_handle: (doc.next_handle + 1) as u64,
                                text_styles: doc.text_styles.push(style),
                                ..doc
                            },
                        ),
                        tab,
                        old(self).doc_store is Some,
                        TableStyleKind::Text,
                    )
            },
            final(self).continues(*old(self)),
            final(self).valid(),
            *final(final(self).app) == *final(old(self).app),
    {
        let tab: usize = self.tab;
        let name = validated_symbol_name(&config.name, "a text style name")?;
        check(
            self.app.tabs[tab].scene.document.get_text_style(&name).is_none(),
            &join3("text style ", &quote(&name), " already exists"),
        )?;
        let mut style = TextStyle::new(&name);
        let ghost base = style;
        apply_text_style_config(&mut style, &config)?;
        self.push_undo("Create text style");
        let ghost before = self.state();
        let ghost tabs = self.app.tabs@;
        proof {
            assert(tabs[tab as int]@ == before.tabs[tab as int]);
        }
        let handle = self.app.tabs[tab].scene.document.allocate_handle();
        style.handle = handle;
        let ghost created = style;
        self.app.tabs[tab].scene.document.text_styles.push(style);
        proof {
            assert(plain_text_style(base, name@));
            assert(styled(base, TextStyle { handle: base.handle, ..created }, config));
            assert(text_style_created(created, handle, name@, config));
            tab_changes(tabs, self.app.tabs@, tab as int);
            let doc = before.tabs[tab as int].scene.document;
            let grown = DocumentView {
                next_handle: (doc.next_handle + 1) as u64,
                text_styles: doc.text_styles.push(created),
                ..doc
            };
            assert(self.app.tabs@[tab as int]@.scene.document =~= grown);
            assert(self.state().tabs =~= with_document(before, tab as int, grown).tabs);
            assert(self.state() =~= with_document(before, tab as int, grown));
        }
        self.finish_style_change(TableStyleKind::Text);
        Ok(handle)
    }

    pub(crate) fn change_text_style(&mut self, config: TextStyleConfig) -> (result: Result<Handle, String>)
        requires
            old(self).valid(),
        ensures
            fault(result) == text_modify_fault(old(self).doc(), config),
            result is Err ==> final(self).state() == old(self).state(),
            result matches Ok(handle) ==> Some(handle) == style_handle(
                old(self).doc(),
                TableStyleKind::Text,
                trimmed(config.name@),
            ) && text_modified(
                old(self).state(),
                final(self).state(),
                old(self).tab as int,
                old(self).doc_store is Some,
                config,
            ),
            final(self).continues(*old(self)),
            final(self).valid(),
            *final(final(self).app) == *final(old(self).app),
    {
        let tab: usize = self.tab;
        let name = trim(&config.name);
        let (_, handle) = find_style(
            &self.app.tabs[tab].scene.document,
            TableStyleKind::Text,
            name,
        )?;
        let index: usize = match find_key(&self.app.tabs[tab].scene.document.text_styles, name) {
            Some(index) => index,
            None => {
                return Ok(handle);
            },
        };
        check(!config.is_idle(), "no text style properties to change")?;
        let mut style = self.app.tabs[tab].scene.document.text_styles[index].copy();
        apply_text_style_config(&mut style, &config)?;
        let ghost changed = style;
        proof {
            assert(styled(self.doc().text_styles[index as int], changed, config));
        }
        if style.agree(&self.app.tabs[tab].scene.document.text_styles[index]) {
            return Ok(handle);
        }
        self.push_undo("Modify text style");
        let ghost before = self.state();
        let ghost tabs = self.app.tabs@;
        proof {
            assert(tabs[tab as int]@ == before.tabs[tab as int]);
        }
        self.app.tabs[tab].scene.document.text_styles.set(index, style);
        proof {
            tab_changes(tabs, self.app.tabs@, tab as int);
        }
        self.finish_style_change(TableStyleKind::Text);
        Ok(handle)
    }

    pub(crate) fn create_dim_style(&mut self, name: &str, copy_from: &Option<String>, properties: &str) -> (result:
        Result<Handle, String>)
        requires
            old(self).valid(),
            old(self).doc().spare(1),
        ensures
            fault(result) == dim_create_fault(
                old(self).doc(),
                name@,
                source_text(*copy_from),
                properties@,
            ),
            result is Err ==> final(self).state() == old(self).state(),
            result matches Ok(handle) ==> {
                let doc = old(self).doc();
                let tab = old(self).tab as int;
                &&& handle.value == doc.next_handle
                &&& exists|style: DimStyle| #[trigger]
                    dim_style_created(
                        doc,
                        style,
                        handle,
                        name@,
                        source_text(*copy_from),
                        properties@,
                    ) && final(self).state() == styles_announced(
                        with_document(
                            recorded(old(self).state(), tab, "Create dimension style"@),
                            tab,
                            DocumentView {
                                next_handle: (doc.next_handle + 1) as u64,
                                dim_styles: doc.dim_styles.push(style),
                                ..doc
                            },
                        ),
                        tab,
                        old(self).doc_store is Some,
                        TableStyleKind::Dim,
                    )
            },
            final(self).continues(*old(self)),
            final(self).valid(),
            *final(final(self).app) == *final(old(self).app),
    {
        let ghost doc = self.doc();
        let tab: usize = self.tab;
        let stored = validated_symbol_name(name, "a dimension style name")?;
        check(
            self.app.tabs[tab].scene.document.get_dim_style(&stored).is_none(),
            &join3("dimension style ", &quote(&stored), " already exists"),
        )?;
        let base = match copy_from {
            Some(source) => {
                let source = trim(source);
                match self.app.tabs[tab].scene.document.get_dim_style(source) {
                    Some(style) => style.copy(),
                    None => {
                        return Err(join3("dimension style ", &quote(source), " does not exist"));
                    },
                }
            },
            None => DimStyle::new(&stored),
        };
        let mut style = apply_dim_style_json(
            &self.app.tabs[tab].scene.document,
            &base,
            properties,
        )?;
        let ghost applied = style;
        self.push_undo("Create dimension style");
        let ghost before = self.state();
        let ghost tabs = self.app.tabs@;
        proof {
            assert(tabs[tab as int]@ == before.tabs[tab as int]);
        }
        let handle = self.app.tabs[tab].scene.document.allocate_handle();
        style.handle = handle;
        style.name = stored;
        let ghost created = style;
        self.app.tabs[tab].scene.document.dim_styles.push(style);
        proof {
            assert(DimStyle { handle: base.handle, name: base.name, ..created } == applied);
            assert(dim_style_created(
                doc,
                created,
                handle,
                name@,
                source_text(*copy_from),
                properties@,
            ));
            tab_changes(tabs, self.app.tabs@, tab as int);
            let grown = DocumentView {
                next_handle: (doc.next_handle + 1) as u64,
                dim_styles: doc.dim_styles.push(created),
                ..doc
            };
            assert(self.app.tabs@[tab as int]@.scene.document =~= grown);
            assert(self.state().tabs =~= with_document(before, tab as int, grown).tabs);
            assert(self.state() =~= with_document(before, tab as int, grown));
        }
        self.finish_style_change(TableStyleKind::Dim);
        Ok(handle)
    }

    pub(crate) fn change_dim_style(&mut self, name: &str, properties: &str) -> (result: Result<Handle, String>)
        requires
            old(self).valid(),
        ensures
            fault(result) == dim_modify_fault(old(self).doc(), name@, properties@),
            result is Err ==> final(self).state() == old(self).state(),
            result matches Ok(handle) ==> Some(handle) == style_handle(
                old(self).doc(),
                TableStyleKind::Dim,
                trimmed(name@),
            ) && dim_modified(
                old(self).state(),
                final(self).state(),
                old(self).tab as int,
                old(self).doc_store is Some,
                name@,
                properties@,
            ),
            final(self).continues(*old(self)),
            final(self).valid(),
            *final(final(self).app) == *final(old(self).app),
    {
        let tab: usize = self.tab;
        let name = trim(name);
        let (_, handle) = find_style(
            &self.app.tabs[tab].scene.document,
            TableStyleKind::Dim,
            name,
        )?;
        let index: usize = match find_key(&self.app.tabs[tab].scene.document.dim_styles, name) {
            Some(index) => index,
            None => {
                return Ok(handle);
            },
        };
        let style = apply_dim_style_json(
            &self.app.tabs[tab].scene.document,
            &self.app.tabs[tab].scene.document.dim_styles[index],
            properties,
        )?;
        if is_same_dim_style(&style, &self.app.tabs[tab].scene.document.dim_styles[index]) {
            return Ok(handle);
        }
        self.push_undo("Modify dimension style");
        let ghost before = self.state();
        let ghost tabs = self.app.tabs@;
        proof {
            assert(tabs[tab as int]@ == before.tabs[tab as int]);
        }
        self.app.tabs[tab].scene.document.dim_styles.set(index, style);
        proof {
            tab_changes(tabs, self.app.tabs@, tab as int);
        }
        self.finish_style_change(TableStyleKind::Dim);
        Ok(handle)
    }

    pub(crate) fn rename_style(&mut self, kind: TableStyleKind, from: &str, to: &str) -> (result: Result<
        Handle,
        String,
    >)
        requires
            old(self).valid(),
        ensures
            fault(result) == style_rename_fault(old(self).doc(), kind, from@, to@),
            result is Err ==> final(self).state() == old(self).state(),
            result matches Ok(handle) ==> {
                let doc = old(self).doc();
                let tab = old(self).tab as int;
                &&& Some(handle) == style_handle(doc, kind, trimmed(from@))
                &&& exists|changed: DocumentView| #[trigger]
                    style_renamed(
                        doc,
                        changed,
                        kind,
                        stored_name(doc, kind, trimmed(from@)),
                        trimmed(to@),
                    ) && final(self).state() == styles_announced(
                        with_document(
                            recorded(old(self).state(), tab, "Rename style"@),
                            tab,
                            changed,
                        ),
                        tab,
                        old(self).doc_store is Some,
                        kind,
                    )
            },
            final(self).continues(*old(self)),
            final(self).valid(),
            *final(final(self).app) == *final(old(self).app),
    {
        let ghost doc = self.doc();
        let tab: usize = self.tab;
        let (stored, handle) = find_style(
            &self.app.tabs[tab].scene.document,
            kind,
            trim(from),
        )?;
        check(!is_alike(&stored, "Standard"), "the Standard style cannot be renamed")?;
        let new_name = validated_symbol_name(to, "a style name")?;
        check(
            !is_alike(&stored, &new_name),
            "the new style name matches the current one (a case-only change is not supported)",
        )?;
        let taken = match kind {
            TableStyleKind::Text => self.app.tabs[tab].scene.document.get_text_style(
                &new_name,
            ).is_some(),
            TableStyleKind::Dim => self.app.tabs[tab].scene.document.get_dim_style(
                &new_name,
            ).is_some(),
        };
        check(!taken, &join3("style ", &quote(&new_name), " already exists"))?;
        self.push_undo("Rename style");
        let ghost before = self.state();
        let ghost tabs = self.app.tabs@;
        proof {
            assert(tabs[tab as int]@ == before.tabs[tab as int]);
            stored_name_is_found(doc, kind, trimmed(from@));
        }
        match kind {
            TableStyleKind::Text => self.app.tabs[tab].scene.document.rename_text_style(
                &stored,
                &new_name,
            ),
            TableStyleKind::Dim => self.app.tabs[tab].scene.document.rename_dim_style(
                &stored,
                &new_name,
            ),
        }
        proof {
            let changed = self.app.tabs@[tab as int]@.scene.document;
            assert(style_renamed(doc, changed, kind, stored@, new_name@));
            tab_changes(tabs, self.app.tabs@, tab as int);
        }
        self.finish_style_change(kind);
        Ok(handle)
    }

    pub(crate) fn delete_style(&mut self, kind: TableStyleKind, name: &str) -> (result: Result<Handle, String>)
        requires
            old(self).valid(),
        ensures
            fault(result) == style_delete_fault(old(self).doc(), kind, name@),
            result is Err ==> final(self).state() == old(self).state(),
            result matches Ok(handle) ==> {
                let doc = old(self).doc();
                let tab = old(self).tab as int;
                &&& Some(handle) == style_handle(doc, kind, trimmed(name@))
                &&& final(self).state() == styles_announced(
                    with_document(
                        recorded(old(self).state(), tab, "Delete style"@),
                        tab,
                        style_removed(doc, kind, trimmed(name@)),
                    ),
                    tab,
                    old(self).doc_store is Some,
                    kind,
                )
            },
            final(self).continues(*old(self)),
            final(self).valid(),
            *final(final(self).app) == *final(old(self).app),
    {
        let ghost doc = self.doc();
        let tab: usize = self.tab;
        let name = trim(name);
        let (stored, handle) = find_style(&self.app.tabs[tab].scene.document, kind, name)?;
        check(!is_alike(&stored, "Standard"), "the Standard style cannot be deleted")?;
        check(
            !self.app.tabs[tab].scene.document.is_style_in_use(kind, &stored),
            &join3("style ", &quote(&stored), " is current or still in use"),
        )?;
        self.push_undo("Delete style");
        let ghost before = self.state();
        let ghost tabs = self.app.tabs@;
        proof {
            assert(tabs[tab as int]@ == before.tabs[tab as int]);
        }
        match kind {
            TableStyleKind::Text => {
                if let Some(index) = find_key(
                    &self.app.tabs[tab].scene.document.text_styles,
                    name,
                ) {
                    self.app.tabs[tab].scene.document.text_styles.remove(index);
                }
            },
            TableStyleKind::Dim => {
                if let Some(index) = find_key(
                    &self.app.tabs[tab].scene.document.dim_styles,
                    name,
                ) {
                    self.app.tabs[tab].scene.document.dim_styles.remove(index);
                }
            },
        }
        proof {
            tab_changes(tabs, self.app.tabs@, tab as int);
        }
        self.finish_style_change(kind);
        Ok(handle)
    }

    pub(crate) fn make_style_current(&mut self, kind: TableStyleKind, name: &str) -> (result: Result<
        Handle,
        String,
    >)
        requires
            old(self).valid(),
        ensures
            fault(result) == style_fault(old(self).doc(), kind, trimmed(name@)),
            result is Err ==> final(self).state() == old(self).state(),
            result matches Ok(handle) ==> Some(handle) == style_handle(
                old(self).doc(),
                kind,
                trimmed(name@),
            ) && style_made_current(
                old(self).state(),
                final(self).state(),
                old(self).tab as int,
                kind,
                stored_name(old(self).doc(), kind, trimmed(name@)),
                handle,
            ),
            final(self).continues(*old(self)),
            final(self).valid(),
            *final(final(self).app) == *final(old(self).app),
    {
        let ghost before = self.state();
        let ghost tabs = self.app.tabs@;
        let tab: usize = self.tab;
        let (stored, handle) = find_style(
            &self.app.tabs[tab].scene.document,
            kind,
            trim(name),
        )?;
        match kind {
            TableStyleKind::Text => {
                self.app.tabs[tab].scene.document.header.current_text_style_handle = handle;
                self.app.tabs[tab].scene.document.header.current_text_style_name = stored.clone();
                self.app.ribbon.active_text_style = stored;
            },
            TableStyleKind::Dim => {
                self.app.tabs[tab].scene.document.header.current_dimstyle_handle = handle;
                self.app.tabs[tab].scene.document.header.current_dimstyle_name = stored.clone();
                self.app.ribbon.active_dim_style = stored;
            },
        }
        self.app.tabs[tab].dirty = true;
        proof {
            tab_changes(tabs, self.app.tabs@, tab as int);
            assert(self.state().tabs =~= dirtied(
                with_document(before, tab as int, self.doc()),
                tab as int,
            ).tabs);
        }
        Ok(handle)
    }
}

/// The name of a style to copy.
pub open spec fn source_text(source: Option<String>) -> Option<Seq<char>> {
    match source {
        Some(text) => Some(text@),
        None => None,
    }
}

/// The stored name of a style leads to the style.
proof fn stored_name_is_found(doc: DocumentView, kind: TableStyleKind, name: Seq<char>)
    requires
        style_handle(doc, kind, name) is Some,
    ensures
        table_key(stored_name(doc, kind, name)) == table_key(name),
{
    match kind {
        TableStyleKind::Text => seek_finds(doc.text_styles, 0, keyed::<TextStyle>(table_key(name))),
        TableStyleKind::Dim => seek_finds(doc.dim_styles, 0, keyed::<DimStyle>(table_key(name))),
    }
}

} // verus!
