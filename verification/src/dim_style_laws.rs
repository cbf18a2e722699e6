//! What properties in JSON make of a dimension style.

use crate::dim_styles::{
    default_dim_style, default_text_style, dim_style_read, ends_with, json_applied, json_fault,
    json_members, managed, member_with, members, merged, patch_checks, plain_dim_style, rewritten,
    same_dim_style, same_properties, starts_with, written, written_members,
};
use crate::document::DocumentView;
use crate::geometry::Handle;
use crate::layer_change_laws::remembered;
use crate::layer_laws::{fit_name, fit_names_are_accepted, only_tab};
use crate::plain::{above_zero, all_checks_pass, numbers_in_plain_terms, zero_or_above};
use crate::records::{keyed, table_key, DimStyle};
use crate::scalar::Scalar;
use crate::search::{pick, seek, seek_finds};
use crate::session::recorded;
use crate::studio::{StudioView, TableStyleKind};
use crate::style_laws::{dim_style_filed, only_styles, style_is_found, styles_told};
use crate::style_ops::{dim_style_created, source_text, styles_announced, TableOperation};
use crate::table_ops::{operation_done, operation_fault};
use crate::text::{earliest, trimmed};
use vstd::prelude::*;
use vstd::string::*;

verus! {

/// The host alone sets the property: its name is `handle` or `name`, starts with
/// `xref_` or ends with `_handle`.
pub open spec fn set_by_the_host(key: Seq<char>) -> bool {
    ||| key == "handle"@
    ||| key == "name"@
    ||| exists|rest: Seq<char>| key == #[trigger] ("xref_"@ + rest)
    ||| exists|rest: Seq<char>| key == #[trigger] (rest + "_handle"@)
}

/// Which properties the host alone sets.
pub proof fn managed_properties_are_set_by_the_host(key: Seq<char>)
    ensures
        managed(key) <==> set_by_the_host(key),
{
    let front = "xref_"@;
    let back = "_handle"@;
    if starts_with(key, front) {
        let rest = key.subrange(front.len() as int, key.len() as int);
        assert(key =~= front + rest);
    }
    if ends_with(key, back) {
        let rest = key.subrange(0, key.len() - back.len());
        assert(key =~= rest + back);
    }
    if exists|rest: Seq<char>| key == #[trigger] (front + rest) {
        let rest = choose|rest: Seq<char>| key == #[trigger] (front + rest);
        assert(key.subrange(0, front.len() as int) =~= front);
    }
    if exists|rest: Seq<char>| key == #[trigger] (rest + back) {
        let rest = choose|rest: Seq<char>| key == #[trigger] (rest + back);
        assert(key.subrange(key.len() - back.len(), key.len() as int) =~= back);
    }
}

/// The list has the property.
pub open spec fn has_key(list: Seq<(Seq<char>, Seq<char>)>, key: Seq<char>) -> bool {
    exists|i: int| 0 <= i < list.len() && (#[trigger] list[i]).0 == key
}

proof fn member_is_found(list: Seq<(Seq<char>, Seq<char>)>, key: Seq<char>)
    ensures
        pick(list, member_with(key)) is Some <==> has_key(list, key),
{
    let test = member_with(key);
    seek_finds(list, 0, test);
    if has_key(list, key) {
        let i = choose|i: int| 0 <= i < list.len() && (#[trigger] list[i]).0 == key;
        assert(test(list[i]));
    }
    if seek(list, 0, test) is Some {
        let i = seek(list, 0, test)->Some_0;
        assert(test(list[i]));
    }
}

/// A patch leaves every property in its place. Each that it names has the value that it
/// gives last, and each other one the value that it had.
pub proof fn patch_is_merged(
    base: Seq<(Seq<char>, Seq<char>)>,
    patch: Seq<(Seq<char>, Seq<char>)>,
)
    ensures
        merged(base, patch).len() == base.len(),
        forall|i: int| 0 <= i < base.len() ==> (#[trigger] merged(base, patch)[i]).0 == base[i].0,
        forall|i: int|
            0 <= i < base.len() && !has_key(patch, base[i].0) ==> (#[trigger] merged(
                base,
                patch,
            )[i]).1 == base[i].1,
        forall|i: int, j: int|
            #![trigger merged(base, patch)[i], patch[j]]
            {
                &&& 0 <= i < base.len()
                &&& 0 <= j < patch.len()
                &&& base[i].0 == patch[j].0
                &&& forall|k: int| 0 <= k < i ==> (#[trigger] base[k]).0 != base[i].0
                &&& forall|k: int| j < k < patch.len() ==> (#[trigger] patch[k]).0 != patch[j].0
            } ==> merged(base, patch)[i].1 == patch[j].1,
    decreases patch.len(),
{
    if patch.len() > 0 {
        let front = patch.drop_last();
        let last = patch.last();
        patch_is_merged(base, front);
        let middle = merged(base, front);
        let result = merged(base, patch);
        let test = member_with(last.0);
        seek_finds(middle, 0, test);
        assert forall|i: int| 0 <= i < base.len() && !has_key(patch, base[i].0) implies (
        #[trigger] result[i]).1 == base[i].1 by {
            if has_key(front, base[i].0) {
                let j = choose|j: int| 0 <= j < front.len() && (#[trigger] front[j]).0 == base[i].0;
                assert(patch[j].0 == base[i].0);
            }
            assert(patch[patch.len() - 1].0 == last.0);
            assert(middle[i].1 == base[i].1);
            if seek(middle, 0, test) == Some(i) {
                assert(test(middle[i]));
            }
        }
        assert forall|i: int, j: int|
            #![trigger result[i], patch[j]]
            {
                &&& 0 <= i < base.len()
                &&& 0 <= j < patch.len()
                &&& base[i].0 == patch[j].0
                &&& forall|k: int| 0 <= k < i ==> (#[trigger] base[k]).0 != base[i].0
                &&& forall|k: int| j < k < patch.len() ==> (#[trigger] patch[k]).0 != patch[j].0
            } implies result[i].1 == patch[j].1 by {
            if j == patch.len() - 1 {
                assert(test(middle[i]));
                let k = seek(middle, 0, test)->Some_0;
                assert(test(middle[k]));
                if k < i {
                    assert(base[k].0 != base[i].0);
                    assert(middle[k].0 == base[k].0);
                }
                assert(k == i);
            } else {
                assert(front[j] == patch[j]);
                assert(patch[patch.len() - 1].0 != patch[j].0);
                assert forall|k: int| j < k < front.len() implies (#[trigger] front[k]).0
                    != front[j].0 by {
                    assert(patch[k].0 != patch[j].0);
                }
                assert(middle[i].1 == patch[j].1);
                if seek(middle, 0, test) == Some(i) {
                    assert(test(middle[i]));
                    assert(middle[i].0 == base[i].0);
                }
            }
        }
        assert forall|i: int| 0 <= i < base.len() implies (#[trigger] result[i]).0
            == base[i].0 by {
            assert(middle[i].0 == base[i].0);
            if seek(middle, 0, test) == Some(i) {
                assert(test(middle[i]));
            }
        }
    }
}

/// What stands between the brackets of an object.
pub open spec fn inside(list: Seq<(Seq<char>, Seq<char>)>, text: Seq<char>) -> bool {
    written(list) == seq!['{'] + text + seq!['}']
}

/// An object in JSON is its members between brackets: none for an empty object, each
/// a quoted name, a colon and a value, and a comma between any two.
pub proof fn object_is_written(
    list: Seq<(Seq<char>, Seq<char>)>,
    more: Seq<(Seq<char>, Seq<char>)>,
    member: (Seq<char>, Seq<char>),
)
    ensures
        inside(Seq::empty(), Seq::empty()),
        inside(
            seq![member],
            seq!['"'] + member.0 + seq!['"', ':'] + member.1,
        ),
        list.len() > 0 && more.len() > 0 ==> forall|a: Seq<char>, b: Seq<char>|
            #![trigger inside(list, a), inside(more, b)]
            inside(list, a) && inside(more, b) ==> inside(list + more, a + seq![','] + b),
{
    reveal_strlit("{");
    reveal_strlit("}");
    reveal_strlit("");
    reveal_strlit("\"");
    reveal_strlit("\":");
    reveal_strlit(",\"");
    assert("{"@ =~= seq!['{']);
    assert("}"@ =~= seq!['}']);
    assert(""@ =~= Seq::empty());
    assert("\""@ =~= seq!['"']);
    assert("\":"@ =~= seq!['"', ':']);
    assert(",\""@ =~= seq![',', '"']);
    let one = seq![member];
    assert(one.drop_last() =~= Seq::<(Seq<char>, Seq<char>)>::empty());
    assert(written_members(Seq::<(Seq<char>, Seq<char>)>::empty()) == ""@);
    reveal_with_fuel(written_members, 2);
    assert(written_members(one) =~= seq!['"'] + member.0 + seq!['"', ':'] + member.1);
    assert(written(Seq::<(Seq<char>, Seq<char>)>::empty()) =~= seq!['{'] + Seq::<char>::empty()
        + seq!['}']);
    if list.len() > 0 && more.len() > 0 {
        members_are_joined(list, more);
        assert forall|a: Seq<char>, b: Seq<char>|
            #![trigger inside(list, a), inside(more, b)]
            inside(list, a) && inside(more, b) implies inside(list + more, a + seq![','] + b) by {
            brackets_hold(written_members(list), a);
            brackets_hold(written_members(more), b);
            assert(written(list + more) =~= seq!['{'] + (a + seq![','] + b) + seq!['}']);
        }
    }
}

proof fn brackets_hold(a: Seq<char>, b: Seq<char>)
    requires
        seq!['{'] + a + seq!['}'] == seq!['{'] + b + seq!['}'],
    ensures
        a == b,
{
    let x = seq!['{'] + a + seq!['}'];
    let y = seq!['{'] + b + seq!['}'];
    assert(x.len() == y.len());
    assert(x.subrange(1, x.len() - 1) =~= a);
    assert(y.subrange(1, y.len() - 1) =~= b);
}

proof fn members_are_joined(list: Seq<(Seq<char>, Seq<char>)>, more: Seq<(Seq<char>, Seq<char>)>)
    requires
        list.len() > 0,
        more.len() > 0,
    ensures
        written_members(list + more) == written_members(list) + seq![','] + written_members(more),
    decreases more.len(),
{
    reveal_strlit("\"");
    reveal_strlit(",\"");
    reveal_strlit("");
    assert("\""@ =~= seq!['"']);
    assert(",\""@ =~= seq![','] + "\""@);
    assert(""@ =~= Seq::empty());
    let all = list + more;
    let front = more.drop_last();
    assert(all.drop_last() =~= list + front);
    assert(all.last() == more.last());
    let tail = more.last().0 + "\":"@ + more.last().1;
    if more.len() == 1 {
        assert(front =~= Seq::<(Seq<char>, Seq<char>)>::empty());
        assert(list + front =~= list);
        assert(written_members(front) == ""@);
        assert(written_members(more) =~= "\""@ + tail);
        assert(written_members(all) =~= written_members(list) + ",\""@ + tail);
        assert(written_members(all) =~= written_members(list) + seq![','] + written_members(more));
    } else {
        members_are_joined(list, front);
        assert(written_members(more) =~= written_members(front) + ",\""@ + tail);
        assert(written_members(all) =~= written_members(list + front) + ",\""@ + tail);
        assert(written_members(all) =~= written_members(list) + seq![','] + written_members(more));
    }
}

/// The properties of a style with a patch, as the codec reads them.
pub open spec fn patched(
    base: Seq<(Seq<char>, Seq<char>)>,
    text: Seq<char>,
) -> Result<(u64, u64, u64, Seq<char>, Seq<char>), Seq<char>> {
    dim_style_read(written(merged(base, json_members(text)->Ok_0->Some_0)))
}

/// The text style of a patched style: the one that the patch names, or else the one in
/// force.
pub open spec fn patched_text_style(
    base: Seq<(Seq<char>, Seq<char>)>,
    in_force: Seq<char>,
    text: Seq<char>,
) -> Seq<char> {
    if has_key(json_members(text)->Ok_0->Some_0, "dimtxsty"@) {
        patched(base, text)->Ok_0.3
    } else {
        in_force
    }
}

/// Properties can be applied to a style: they are an object, each is one of the style
/// and none that the host sets, and what the codec reads then has a scale and a text
/// height above zero, an arrow size not below zero, and a text style that is there.
pub open spec fn patch_stands(
    doc: DocumentView,
    base: Seq<(Seq<char>, Seq<char>)>,
    in_force: Seq<char>,
    text: Seq<char>,
) -> bool {
    let patch = json_members(text)->Ok_0->Some_0;
    let read = patched(base, text)->Ok_0;
    &&& json_members(text) is Ok
    &&& json_members(text)->Ok_0 is Some
    &&& forall|i: int|
        0 <= i < patch.len() ==> !set_by_the_host((#[trigger] patch[i]).0) && has_key(
            base,
            patch[i].0,
        )
    &&& patched(base, text) is Ok
    &&& above_zero(Scalar { bits: read.0 })
    &&& above_zero(Scalar { bits: read.1 })
    &&& zero_or_above(Scalar { bits: read.2 })
    &&& doc.text_style(patched_text_style(base, in_force, text)) is Some
}

proof fn standing_patches_are_accepted(
    doc: DocumentView,
    base: Seq<(Seq<char>, Seq<char>)>,
    in_force: Seq<char>,
    text: Seq<char>,
)
    ensures
        json_fault(doc, base, in_force, text) is None <==> patch_stands(doc, base, in_force, text),
{
    numbers_in_plain_terms();
    if json_members(text) is Ok && json_members(text)->Ok_0 is Some {
        let patch = json_members(text)->Ok_0->Some_0;
        let checks = patch_checks(base, patch);
        member_is_found(patch, "dimtxsty"@);
        all_checks_pass(0, patch.len() as int, checks);
        assert forall|i: int| 0 <= i < patch.len() implies (#[trigger] checks(i) is None) == (
        !set_by_the_host(patch[i].0) && has_key(base, patch[i].0)) by {
            managed_properties_are_set_by_the_host(patch[i].0);
            member_is_found(base, patch[i].0);
        }
        if earliest(0, patch.len() as int, checks) is None {
            assert forall|i: int| 0 <= i < patch.len() implies !set_by_the_host(
                (#[trigger] patch[i]).0,
            ) && has_key(base, patch[i].0) by {
                assert(checks(i) is None);
            }
        }
    }
}

/// A dimension style is changed exactly in the active drawing, where it is there and
/// the properties can be applied to it.
pub proof fn dim_style_can_be_changed<S, C>(
    state: StudioView<S, C>,
    tab: int,
    name: String,
    properties: String,
)
    ensures
        operation_fault(state, tab, TableOperation::DimStyleModify { name, properties }) is None
            <==> {
            let doc = state.tabs[tab].scene.document;
            let style = doc.dim_style(trimmed(name@))->Some_0;
            &&& state.active_tab == tab
            &&& dim_style_filed(doc, trimmed(name@))
            &&& patch_stands(doc, members(style.properties@), style.dimtxsty@, properties@)
        },
{
    let doc = state.tabs[tab].scene.document;
    let style = doc.dim_style(trimmed(name@))->Some_0;
    style_is_found(doc, trimmed(name@));
    standing_patches_are_accepted(
        doc,
        members(style.properties@),
        style.dimtxsty@,
        properties@,
    );
}

/// A dimension style is made exactly in the active drawing, where its name is fit and
/// free, and the properties can be applied to the style that it copies or, without one,
/// to the default.
pub proof fn dim_style_can_be_made<S, C>(
    state: StudioView<S, C>,
    tab: int,
    name: String,
    copy_from: Option<String>,
    properties: String,
)
    ensures
        operation_fault(
            state,
            tab,
            TableOperation::DimStyleCreate { name, copy_from, properties },
        ) is None <==> {
            let doc = state.tabs[tab].scene.document;
            let source = trimmed(copy_from->Some_0@);
            let style = doc.dim_style(source)->Some_0;
            &&& state.active_tab == tab
            &&& fit_name(name@)
            &&& !dim_style_filed(doc, trimmed(name@))
            &&& copy_from is Some ==> dim_style_filed(doc, source) && patch_stands(
                doc,
                members(style.properties@),
                style.dimtxsty@,
                properties@,
            )
            &&& copy_from is None ==> patch_stands(
                doc,
                rewritten(default_dim_style(trimmed(name@))),
                default_text_style(trimmed(name@)),
                properties@,
            )
        },
{
    let doc = state.tabs[tab].scene.document;
    fit_names_are_accepted(name@, "a dimension style name"@);
    style_is_found(doc, trimmed(name@));
    if copy_from is Some {
        let source = trimmed(copy_from->Some_0@);
        let style = doc.dim_style(source)->Some_0;
        style_is_found(doc, source);
        standing_patches_are_accepted(
            doc,
            members(style.properties@),
            style.dimtxsty@,
            properties@,
        );
    } else {
        standing_patches_are_accepted(
            doc,
            rewritten(default_dim_style(trimmed(name@))),
            default_text_style(trimmed(name@)),
            properties@,
        );
    }
}

/// The style is another one with properties applied: it has the scale, the sizes and
/// the members that the codec reads, and its text style is one of the drawing, by its
/// stored name and its handle.
pub open spec fn takes_on(
    doc: DocumentView,
    base: DimStyle,
    style: DimStyle,
    text: Seq<char>,
) -> bool {
    let read = patched(members(base.properties@), text)->Ok_0;
    let writes = doc.text_style(
        patched_text_style(members(base.properties@), base.dimtxsty@, text),
    );
    &&& style.dimscale.bits == read.0
    &&& style.dimtxt.bits == read.1
    &&& style.dimasz.bits == read.2
    &&& writes is Some
    &&& style.dimtxsty@ == writes->Some_0.name@
    &&& style.dimtxsty_handle == writes->Some_0.handle
    &&& members(style.properties@) == rewritten(read.4)
}

proof fn applied_properties_are_taken_on(
    doc: DocumentView,
    base: &DimStyle,
    style: &DimStyle,
    text: Seq<char>,
)
    requires
        json_applied(doc, *base, *style, text),
    ensures
        takes_on(doc, *base, *style, text),
        style.name == base.name,
        style.handle == base.handle,
{
    let patch = json_members(text)->Ok_0->Some_0;
    member_is_found(patch, "dimtxsty"@);
}

/// A dimension style that was made has the name and the handle that it was given and
/// takes on the properties: over those of the style that it copies, or over the
/// default. It comes last, and the other styles stay.
pub proof fn made_dim_style_reads_back<S, C>(
    before: StudioView<S, C>,
    after: StudioView<S, C>,
    tab: int,
    open: bool,
    name: String,
    copy_from: Option<String>,
    properties: String,
    handle: Handle,
)
    requires
        0 <= tab < before.tabs.len(),
        before.tabs[tab].scene.document.spare(1),
        before.tabs[tab].scene.document.dim_style(trimmed(name@)) is None,
        operation_done(
            before,
            after,
            tab,
            open,
            TableOperation::DimStyleCreate { name, copy_from, properties },
            handle,
        ),
    ensures
        ({
            let doc = before.tabs[tab].scene.document;
            let end = after.tabs[tab].scene.document;
            let style = end.dim_style(trimmed(name@))->Some_0;
            &&& end.dim_style(trimmed(name@)) is Some
            &&& end.dim_styles == doc.dim_styles.push(style)
            &&& style.name@ == trimmed(name@)
            &&& style.handle == handle
            &&& handle.value == doc.next_handle
            &&& end.next_handle == doc.next_handle + 1
            &&& copy_from is Some ==> takes_on(
                doc,
                doc.dim_style(trimmed(copy_from->Some_0@))->Some_0,
                style,
                properties@,
            )
            &&& copy_from is None ==> exists|base: DimStyle| #[trigger]
                plain_dim_style(base, trimmed(name@)) && takes_on(doc, base, style, properties@)
            &&& end.text_styles == doc.text_styles
            &&& only_styles(doc, end)
            &&& only_tab(before, after, tab)
            &&& styles_told(before, after, tab, open, TableStyleKind::Dim)
            &&& remembered(before, after, tab, "Create dimension style"@)
        }),
{
    let doc = before.tabs[tab].scene.document;
    let end = after.tabs[tab].scene.document;
    let source = source_text(copy_from);
    let style = choose|style: DimStyle| #[trigger]
        dim_style_created(doc, style, handle, name@, source, properties@) && after
            == styles_announced(
            crate::session::with_document(
                recorded(before, tab, "Create dimension style"@),
                tab,
                DocumentView {
                    next_handle: (doc.next_handle + 1) as u64,
                    dim_styles: doc.dim_styles.push(style),
                    ..doc
                },
            ),
            tab,
            open,
            TableStyleKind::Dim,
        );
    assert(recorded(before, tab, "Create dimension style"@).tabs[tab].undo.drop_last()
        =~= before.tabs[tab].undo);
    let base = choose|base: DimStyle|
        {
            &&& match source {
                None => plain_dim_style(base, trimmed(name@)),
                Some(text) => doc.dim_style(trimmed(text)) == Some(base),
            }
            &&& #[trigger] json_applied(
                doc,
                base,
                DimStyle { handle: base.handle, name: base.name, ..style },
                properties@,
            )
        };
    applied_properties_are_taken_on(
        doc,
        &base,
        &DimStyle { handle: base.handle, name: base.name, ..style },
        properties@,
    );
    assert(takes_on(doc, base, style, properties@));
    let test = keyed::<DimStyle>(table_key(trimmed(name@)));
    let last = doc.dim_styles.len() as int;
    seek_finds(doc.dim_styles, 0, test);
    seek_finds(end.dim_styles, 0, test);
    assert(end.dim_styles[last] == style);
    assert(test(end.dim_styles[last]));
    let j = seek(end.dim_styles, 0, test)->Some_0;
    if j < last {
        assert(test(doc.dim_styles[j]));
    }
}

/// Two values of a property are equal: the same text, or both a zero.
pub open spec fn equal_value(a: Seq<char>, b: Seq<char>) -> bool {
    a == b || ((a == "0.0"@ || a == "-0.0"@) && (b == "0.0"@ || b == "-0.0"@))
}

/// A dimension style that was changed takes on the properties and keeps its name and
/// its handle; the other styles stay, and the application is told. Nothing changes where
/// the style has the text style and all the properties already.
pub proof fn changed_dim_style_reads_back<S, C>(
    before: StudioView<S, C>,
    after: StudioView<S, C>,
    tab: int,
    open: bool,
    name: String,
    properties: String,
    handle: Handle,
)
    requires
        0 <= tab < before.tabs.len(),
        operation_done(
            before,
            after,
            tab,
            open,
            TableOperation::DimStyleModify { name, properties },
            handle,
        ),
    ensures
        ({
            let doc = before.tabs[tab].scene.document;
            let end = after.tabs[tab].scene.document;
            let old_style = doc.dim_style(trimmed(name@))->Some_0;
            let style = end.dim_style(trimmed(name@))->Some_0;
            let read = patched(members(old_style.properties@), properties@)->Ok_0;
            let fresh = rewritten(read.4);
            let list = members(old_style.properties@);
            &&& doc.dim_style(trimmed(name@)) is Some
            &&& end.dim_style(trimmed(name@)) is Some
            &&& handle == old_style.handle
            &&& style.name == old_style.name
            &&& style.handle == old_style.handle
            &&& end.dim_styles.len() == doc.dim_styles.len()
            &&& end.text_styles == doc.text_styles
            &&& only_styles(doc, end)
            &&& only_tab(before, after, tab)
            &&& forall|other: Seq<char>|
                table_key(other) != table_key(trimmed(name@)) ==> #[trigger] end.dim_style(other)
                    == doc.dim_style(other)
            &&& after == before ==> {
                let writes = doc.text_style(
                    patched_text_style(list, old_style.dimtxsty@, properties@),
                );
                &&& writes is Some
                &&& old_style.dimtxsty@ == writes->Some_0.name@
                &&& old_style.dimtxsty_handle == writes->Some_0.handle
                &&& list.len() == fresh.len()
                &&& forall|i: int|
                    0 <= i < list.len() ==> (#[trigger] fresh[i]).0 == list[i].0 && (equal_value(
                        fresh[i].1,
                        list[i].1,
                    ) || list[i].0 == "dimtxsty"@)
            }
            &&& ({
                let writes = doc.text_style(
                    patched_text_style(list, old_style.dimtxsty@, properties@),
                );
                old_style.dimtxsty@ == writes->Some_0.name@ && old_style.dimtxsty_handle
                    == writes->Some_0.handle && fresh == list
            }) ==> after == before
            &&& after != before ==> {
                &&& takes_on(doc, old_style, style, properties@)
                &&& styles_told(before, after, tab, open, TableStyleKind::Dim)
                &&& remembered(before, after, tab, "Modify dimension style"@)
            }
        }),
{
    let doc = before.tabs[tab].scene.document;
    let end = after.tabs[tab].scene.document;
    let key = trimmed(name@);
    let test = keyed::<DimStyle>(table_key(key));
    seek_finds(doc.dim_styles, 0, test);
    let i = seek(doc.dim_styles, 0, test)->Some_0;
    let style = choose|style: DimStyle|
        {
            &&& #[trigger] json_applied(doc, doc.dim_styles[i], style, properties@)
            &&& after == if same_dim_style(style, doc.dim_styles[i]) {
                before
            } else {
                styles_announced(
                    crate::session::with_document(
                        recorded(before, tab, "Modify dimension style"@),
                        tab,
                        DocumentView { dim_styles: doc.dim_styles.update(i, style), ..doc },
                    ),
                    tab,
                    open,
                    TableStyleKind::Dim,
                )
            }
        };
    applied_properties_are_taken_on(doc, &doc.dim_styles[i], &style, properties@);
    let list = members(doc.dim_styles[i].properties@);
    if same_dim_style(style, doc.dim_styles[i]) {
        let fresh = members(style.properties@);
        assert(fresh == rewritten(patched(list, properties@)->Ok_0.4));
        assert(same_properties(fresh, list));
    } else {
        assert(recorded(before, tab, "Modify dimension style"@).tabs[tab].undo.drop_last()
            =~= before.tabs[tab].undo);
        assert(after.tabs[tab].undo.len() != before.tabs[tab].undo.len());
        assert(end.dim_styles =~= doc.dim_styles.update(i, style));
        seek_finds(end.dim_styles, 0, test);
        assert(test(end.dim_styles[i]));
        let j = seek(end.dim_styles, 0, test)->Some_0;
        if j < i {
            assert(test(doc.dim_styles[j]));
        }
        assert(j == i);
        assert forall|other: Seq<char>| table_key(other) != table_key(key) implies
            #[trigger] end.dim_style(other) == doc.dim_style(other) by {
            let there = keyed::<DimStyle>(table_key(other));
            seek_finds(doc.dim_styles, 0, there);
            seek_finds(end.dim_styles, 0, there);
            if seek(doc.dim_styles, 0, there) is Some {
                let k = seek(doc.dim_styles, 0, there)->Some_0;
                assert(there(doc.dim_styles[k]));
                assert(k != i);
                assert(there(end.dim_styles[k]));
            }
            if seek(end.dim_styles, 0, there) is Some {
                let k = seek(end.dim_styles, 0, there)->Some_0;
                assert(there(end.dim_styles[k]));
                assert(k != i);
                assert(there(doc.dim_styles[k]));
            }
        }
    }
}

} // verus!
