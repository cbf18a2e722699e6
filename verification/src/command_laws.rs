//! What the answers of commands come to, and where new images are listed.

use crate::command::{
    after_event, request_done, said_pick, said_prompt, step_view, CommandStep,
    PluginProcessInteractiveAdapter, ResultView,
};
use crate::dim_constraint::menu_command;
use crate::document::{object_with, DocumentView, ObjectEntry, ObjectType};
use crate::entities::EntityType;
use crate::fresh::new_drawing;
use crate::geometry::Handle;
use crate::images::{
    candidate, dictionary, free_key, image_added, image_dictionary, image_dictionary_made,
    image_dictionary_ready, image_listed, image_listed_as, listed_stem, stored, stored_is_found,
    taken, ImageFile,
};
use crate::layer_laws::only_tab;
use crate::outside::{dictionary_entries, entry_for};
use crate::records::{
    identified, keyed, table_key, BlockRecord, DimStyle, Layer, LineType, TextStyle,
};
use crate::scene::added_entity_reads_back;
use crate::scene_laws::added_entity_joins_its_block;
use crate::search::{seek, seek_finds};
use crate::studio::StudioView;
use crate::text::{alike, ascii_lower, decimal};
use vstd::prelude::*;
use vstd::string::*;

verus! {

/// The entity that a command committed is the last of the drawing, as it was given, and
/// the others stay.
pub open spec fn committed(before: DocumentView, after: DocumentView, entity: EntityType) -> bool {
    let last = after.entities.last();
    &&& after.entities.len() == before.entities.len() + 1
    &&& forall|i: int|
        0 <= i < before.entities.len() ==> (#[trigger] after.entities[i]) == before.entities[i]
    &&& last.data == entity.data
    &&& last.record == entity.record
    &&& last.common.layer == entity.common.layer
    &&& last.common.look == entity.common.look
    &&& after.entity(last.common.handle) == Some(last)
}

/// What the answer of a plugin's command comes to. An entity that it commits goes into
/// the drawing, and the command goes on unless it says that it ends. A command that is
/// done, gives up or gives no answer ends, and the drawing stays. One that waits for a
/// point changes nothing.
pub proof fn answers_are_carried_out<S, C>(
    before: StudioView<S, C>,
    after: StudioView<S, C>,
    tab: int,
    answer: Option<CommandStep>,
)
    requires
        0 <= tab < before.tabs.len(),
        before.tabs[tab].scene.document.spare(2),
        answer is Some && answer->Some_0 is Commit
            ==> answer->Some_0->Commit_0.common.handle.value < u64::MAX,
        answer is Some && answer->Some_0 is CommitAndEnd
            ==> answer->Some_0->CommitAndEnd_0.common.handle.value < u64::MAX,
        request_done(before, after, tab, step_view(answer)),
    ensures
        ({
            let old_tab = before.tabs[tab];
            let new = after.tabs[tab];
            &&& answer == Some(CommandStep::NeedPoint) ==> after == before
            &&& answer is None || answer->Some_0 is Done || answer->Some_0 is Cancel
                ==> new.active_cmd is None && new.scene == old_tab.scene
            &&& answer is Some && answer->Some_0 is Commit ==> committed(
                old_tab.scene.document,
                new.scene.document,
                answer->Some_0->Commit_0,
            ) && new.active_cmd == old_tab.active_cmd && new.scene.geometry_epoch
                != old_tab.scene.geometry_epoch
            &&& answer is Some && answer->Some_0 is CommitAndEnd ==> committed(
                old_tab.scene.document,
                new.scene.document,
                answer->Some_0->CommitAndEnd_0,
            ) && new.active_cmd is None && new.scene.geometry_epoch
                != old_tab.scene.geometry_epoch
            &&& new.scene.selection == old_tab.scene.selection
            &&& new.undo == old_tab.undo
            &&& new.redo == old_tab.redo
            &&& new.dirty == old_tab.dirty
            &&& only_tab(before, after, tab)
            &&& after.events == before.events
        }),
{
    let doc = before.tabs[tab].scene.document;
    let end = after.tabs[tab].scene.document;
    if answer is Some && answer->Some_0 is Commit {
        added_entity_reads_back(doc, end, answer->Some_0->Commit_0);
        added_entity_joins_its_block(doc, end, answer->Some_0->Commit_0);
    }
    if answer is Some && answer->Some_0 is CommitAndEnd {
        added_entity_reads_back(doc, end, answer->Some_0->CommitAndEnd_0);
        added_entity_joins_its_block(doc, end, answer->Some_0->CommitAndEnd_0);
    }
}

/// A request that is about neither an entity nor the end of the command leaves the
/// drawing to the rest of the application.
pub proof fn other_requests_change_nothing<S, C>(
    before: StudioView<S, C>,
    after: StudioView<S, C>,
    tab: int,
    request: ResultView,
)
    requires
        request_done(before, after, tab, request),
        request is NeedPoint || request is ReportError || request is ReportMeasurement
            || request is CheckConstraintPoint || request is MakeParallel
            || request is AddDimensionalConstraint || request is Dispatch,
    ensures
        after == before,
{
}

/// The command for a word of the menu.
pub open spec fn stands_for(word: Seq<char>, whole: Seq<char>) -> bool {
    alike(word, whole) ==> menu_command(word) == Some("DC"@ + whole)
}

/// How long the words of the menu are, and the letters that tell them apart.
pub proof fn menu_words(word: Seq<char>)
    ensures
        alike(word, "L"@) ==> word.len() == 1 && ascii_lower(word[0]) == 108,
        alike(word, "H"@) ==> word.len() == 1 && ascii_lower(word[0]) == 104,
        alike(word, "V"@) ==> word.len() == 1 && ascii_lower(word[0]) == 118,
        alike(word, "A"@) ==> word.len() == 1 && ascii_lower(word[0]) == 97,
        alike(word, "R"@) ==> word.len() == 1 && ascii_lower(word[0]) == 114,
        alike(word, "D"@) ==> word.len() == 1 && ascii_lower(word[0]) == 100,
        alike(word, "C"@) ==> word.len() == 1 && ascii_lower(word[0]) == 99,
        alike(word, "AN"@) ==> word.len() == 2,
        alike(word, "LINEAR"@) ==> word.len() == 6 && ascii_lower(word[0]) == 108,
        alike(word, "HORIZONTAL"@) ==> word.len() == 10,
        alike(word, "VERTICAL"@) ==> word.len() == 8 && ascii_lower(word[0]) == 118,
        alike(word, "ALIGNED"@) ==> word.len() == 7 && ascii_lower(word[1]) == 108,
        alike(word, "ANGULAR"@) ==> word.len() == 7 && ascii_lower(word[1]) == 110,
        alike(word, "RADIAL"@) ==> word.len() == 6 && ascii_lower(word[0]) == 114,
        alike(word, "RADIUS"@) ==> word.len() == 6 && ascii_lower(word[0]) == 114,
        alike(word, "DIAMETER"@) ==> word.len() == 8 && ascii_lower(word[0]) == 100,
        alike(word, "CONVERT"@) ==> word.len() == 7 && ascii_lower(word[1]) == 111,
{
    reveal_strlit("L");
    reveal_strlit("H");
    reveal_strlit("V");
    reveal_strlit("A");
    reveal_strlit("R");
    reveal_strlit("D");
    reveal_strlit("C");
    reveal_strlit("AN");
    reveal_strlit("LINEAR");
    reveal_strlit("HORIZONTAL");
    reveal_strlit("VERTICAL");
    reveal_strlit("ALIGNED");
    reveal_strlit("ANGULAR");
    reveal_strlit("RADIAL");
    reveal_strlit("RADIUS");
    reveal_strlit("DIAMETER");
    reveal_strlit("CONVERT");
    if word.len() > 0 {
        let first = ascii_lower(word[0]);
    }
    if word.len() > 1 {
        let second = ascii_lower(word[1]);
    }
}

/// Each whole word of the menu stands for the command with that word behind `DC`, and
/// its short form for the same.
pub proof fn menu_words_stand_for_commands(word: Seq<char>)
    ensures
        stands_for(word, "LINEAR"@),
        stands_for(word, "HORIZONTAL"@),
        stands_for(word, "VERTICAL"@),
        stands_for(word, "ALIGNED"@),
        stands_for(word, "ANGULAR"@),
        stands_for(word, "RADIUS"@),
        stands_for(word, "DIAMETER"@),
        stands_for(word, "CONVERT"@),
        alike(word, "L"@) ==> menu_command(word) == menu_command("LINEAR"@),
        alike(word, "H"@) ==> menu_command(word) == menu_command("HORIZONTAL"@),
        alike(word, "V"@) ==> menu_command(word) == menu_command("VERTICAL"@),
        alike(word, "A"@) ==> menu_command(word) == menu_command("ALIGNED"@),
        alike(word, "AN"@) ==> menu_command(word) == menu_command("ANGULAR"@),
        alike(word, "R"@) || alike(word, "RADIAL"@) ==> menu_command(word) == menu_command(
            "RADIUS"@,
        ),
        alike(word, "D"@) ==> menu_command(word) == menu_command("DIAMETER"@),
        alike(word, "C"@) ==> menu_command(word) == menu_command("CONVERT"@),
        menu_command(word) is Some ==> word.len() == 1 || word.len() == 2 || word.len() >= 6,
{
    menu_words(word);
    menu_words("LINEAR"@);
    menu_words("HORIZONTAL"@);
    menu_words("VERTICAL"@);
    menu_words("ALIGNED"@);
    menu_words("ANGULAR"@);
    menu_words("RADIUS"@);
    menu_words("DIAMETER"@);
    menu_words("CONVERT"@);
    reveal_strlit("DC");
    reveal_strlit("LINEAR");
    reveal_strlit("HORIZONTAL");
    reveal_strlit("VERTICAL");
    reveal_strlit("ALIGNED");
    reveal_strlit("ANGULAR");
    reveal_strlit("RADIUS");
    reveal_strlit("DIAMETER");
    reveal_strlit("CONVERT");
    reveal_strlit("DCLINEAR");
    reveal_strlit("DCHORIZONTAL");
    reveal_strlit("DCVERTICAL");
    reveal_strlit("DCALIGNED");
    reveal_strlit("DCANGULAR");
    reveal_strlit("DCRADIUS");
    reveal_strlit("DCDIAMETER");
    reveal_strlit("DCCONVERT");
    assert("DC"@ + "LINEAR"@ =~= "DCLINEAR"@);
    assert("DC"@ + "HORIZONTAL"@ =~= "DCHORIZONTAL"@);
    assert("DC"@ + "VERTICAL"@ =~= "DCVERTICAL"@);
    assert("DC"@ + "ALIGNED"@ =~= "DCALIGNED"@);
    assert("DC"@ + "ANGULAR"@ =~= "DCANGULAR"@);
    assert("DC"@ + "RADIUS"@ =~= "DCRADIUS"@);
    assert("DC"@ + "DIAMETER"@ =~= "DCDIAMETER"@);
    assert("DC"@ + "CONVERT"@ =~= "DCCONVERT"@);
}

/// What a drawing starts with: its current layer, styles and linetypes are there under
/// their names, the layer is on, thawed and unlocked, its blocks have the handles that
/// the header gives, and no entity is in it.
pub proof fn new_drawing_is_complete(doc: DocumentView)
    requires
        new_drawing(doc),
    ensures
        doc.entities.len() == 0,
        doc.layer(doc.header.current_layer_name@) is Some,
        doc.layer("0"@) is Some,
        ({
            let layer = doc.layer("0"@)->Some_0;
            !layer.off && !layer.frozen && !layer.locked && layer.is_plottable
        }),
        doc.text_style(doc.header.current_text_style_name@) is Some,
        doc.text_style("Standard"@)->Some_0.handle == doc.header.current_text_style_handle,
        !doc.text_style("Standard"@)->Some_0.is_shape_file,
        doc.dim_style(doc.header.current_dimstyle_name@) is Some,
        doc.dim_style("Standard"@)->Some_0.handle == doc.header.current_dimstyle_handle,
        doc.line_type("Continuous"@) is Some,
        doc.line_type("ByLayer"@) is Some,
        doc.line_type("ByBlock"@) is Some,
        doc.block_with(doc.header.model_space_block_handle) is Some,
        doc.block_with(doc.header.paper_space_block_handle) is Some,
        doc.header.model_space_block_handle != doc.header.paper_space_block_handle,
        dictionary(doc, doc.header.named_objects_dict_handle) is Some,
        forall|handle: Handle| handle.value >= doc.next_handle ==> #[trigger] doc.object(
            handle,
        ) is None,
{
    seek_finds(doc.layers, 0, keyed::<Layer>(table_key("0"@)));
    assert(keyed::<Layer>(table_key("0"@))(doc.layers[0]));
    seek_finds(doc.text_styles, 0, keyed::<TextStyle>(table_key("Standard"@)));
    assert(keyed::<TextStyle>(table_key("Standard"@))(doc.text_styles[0]));
    seek_finds(doc.dim_styles, 0, keyed::<DimStyle>(table_key("Standard"@)));
    assert(keyed::<DimStyle>(table_key("Standard"@))(doc.dim_styles[0]));
    seek_finds(doc.line_types, 0, keyed::<LineType>(table_key("Continuous"@)));
    assert(keyed::<LineType>(table_key("Continuous"@))(doc.line_types[2]));
    seek_finds(doc.line_types, 0, keyed::<LineType>(table_key("ByLayer"@)));
    assert(keyed::<LineType>(table_key("ByLayer"@))(doc.line_types[1]));
    seek_finds(doc.line_types, 0, keyed::<LineType>(table_key("ByBlock"@)));
    assert(keyed::<LineType>(table_key("ByBlock"@))(doc.line_types[0]));
    let model = doc.header.model_space_block_handle;
    let paper = doc.header.paper_space_block_handle;
    seek_finds(doc.block_records, 0, identified::<BlockRecord>(model));
    assert(identified::<BlockRecord>(model)(doc.block_records[0]));
    seek_finds(doc.block_records, 0, identified::<BlockRecord>(paper));
    assert(identified::<BlockRecord>(paper)(doc.block_records[1]));
    let root = doc.header.named_objects_dict_handle;
    seek_finds(doc.objects, 0, object_with(root));
    assert(object_with(root)(doc.objects[0]));
    assert forall|handle: Handle| handle.value >= doc.next_handle implies #[trigger] doc.object(
        handle,
    ) is None by {
        seek_finds(doc.objects, 0, object_with(handle));
        if seek(doc.objects, 0, object_with(handle)) is Some {
            let i = seek(doc.objects, 0, object_with(handle))->Some_0;
            assert(object_with(handle)(doc.objects[i]));
        }
    }
}

/// The entries that a dictionary of the drawing lists.
pub open spec fn entries_of(doc: DocumentView, handle: Handle) -> Seq<(Seq<char>, u64)> {
    dictionary_entries(dictionary(doc, handle)->Some_0.entries)
}

/// The key is new to a dictionary: no entry has it, whatever the case of letters. It is
/// the name of the file, or else that with the lowest number from two up that is free.
pub open spec fn new_key(entries: Seq<(Seq<char>, u64)>, stem: Seq<char>, key: Seq<char>) -> bool {
    &&& forall|i: int| 0 <= i < entries.len() ==> !alike((#[trigger] entries[i]).0, key)
    &&& (forall|i: int| 0 <= i < entries.len() ==> !alike((#[trigger] entries[i]).0, stem)) ==> key
        == stem
    &&& key == stem || exists|number: nat|
        {
            &&& number >= 2
            &&& key == stem + seq!['_'] + #[trigger] decimal(number)
            &&& forall|lower: nat|
                2 <= lower < number ==> listed_under(
                    entries,
                    stem + seq!['_'] + #[trigger] decimal(lower),
                )
        }
}

/// Some entry has the key, whatever the case of letters.
pub open spec fn listed_under(entries: Seq<(Seq<char>, u64)>, key: Seq<char>) -> bool {
    exists|i: int| 0 <= i < entries.len() && alike((#[trigger] entries[i]).0, key)
}

proof fn free_keys_are_new(entries: Seq<(Seq<char>, u64)>, stem: Seq<char>, key: Seq<char>)
    requires
        free_key(entries, stem, key),
    ensures
        new_key(entries, stem, key),
{
    reveal_strlit("_");
    assert("_"@ =~= seq!['_']);
    let number = choose|number: nat|
        {
            &&& number >= 1
            &&& key == #[trigger] candidate(stem, number)
            &&& !taken(entries, key)
            &&& forall|j: nat| 1 <= j < number ==> taken(entries, #[trigger] candidate(stem, j))
        };
    seek_finds(entries, 0, entry_for(key));
    assert forall|i: int| 0 <= i < entries.len() implies !alike(
        (#[trigger] entries[i]).0,
        key,
    ) by {
        assert(!entry_for(key)(entries[i]));
    }
    if forall|i: int| 0 <= i < entries.len() ==> !alike((#[trigger] entries[i]).0, stem) {
        seek_finds(entries, 0, entry_for(stem));
        if number > 1 {
            assert(taken(entries, candidate(stem, 1)));
            let i = seek(entries, 0, entry_for(stem))->Some_0;
            assert(entry_for(stem)(entries[i]));
        }
    }
    if number > 1 {
        assert(key == stem + seq!['_'] + decimal(number));
        assert forall|lower: nat| 2 <= lower < number implies listed_under(
            entries,
            stem + seq!['_'] + #[trigger] decimal(lower),
        ) by {
            let tried = candidate(stem, lower);
            assert(taken(entries, tried));
            assert(tried == stem + seq!['_'] + decimal(lower));
            seek_finds(entries, 0, entry_for(tried));
            let i = seek(entries, 0, entry_for(tried))->Some_0;
            assert(entry_for(tried)(entries[i]));
        }
    }
}

/// The definition of a new image is listed in a dictionary that the drawing had, behind
/// what is listed there, under a key that is new; the dictionary owns the definition.
pub proof fn new_image_is_listed(
    before: DocumentView,
    after: DocumentView,
    path: Seq<char>,
    file: ImageFile,
)
    requires
        image_added(before, after, path, file),
        before.spare(2),
        image_dictionary(before) is Some,
        image_dictionary(before)->Some_0.value != before.next_handle,
    ensures
        ({
            let handle = image_dictionary(before)->Some_0;
            let entries = entries_of(before, handle);
            let listed = entries_of(after, handle);
            let image = Handle { value: before.next_handle };
            &&& dictionary(after, handle) is Some
            &&& listed.len() == entries.len() + 1
            &&& forall|i: int|
                0 <= i < entries.len() ==> (#[trigger] listed[i]) == entries[i]
            &&& listed.last().1 == before.next_handle
            &&& new_key(entries, listed_stem(file), listed.last().0)
            &&& after.object(image) is Some && after.object(image)->Some_0 is ImageDefinition
            &&& after.object(image)->Some_0->ImageDefinition_0.owner == handle
        }),
{
    let image = Handle { value: before.next_handle };
    let numbered = DocumentView { next_handle: (before.next_handle + 1) as u64, ..before };
    let (owner, ready, listed, definition) = choose|
        owner: Option<Handle>,
        ready: DocumentView,
        listed: DocumentView,
        definition: ObjectType,
    |
        {
            &&& #[trigger] image_dictionary_ready(numbered, ready, owner)
            &&& #[trigger] image_listed(ready, listed, owner, image, listed_stem(file))
            &&& #[trigger] crate::images::defines_image(definition, image, owner, path, file)
            &&& after == (DocumentView {
                objects: stored(
                    listed.objects,
                    ObjectEntry { handle: image, object: definition },
                ),
                ..listed
            })
        };
    assert(image_dictionary(numbered) == image_dictionary(before));
    let handle = image_dictionary(before)->Some_0;
    assert(dictionary(numbered, handle) == dictionary(before, handle));
    assert(owner == Some(handle) && ready == numbered);
    let (listing, key) = choose|listing: ObjectType, key: Seq<char>| #[trigger]
        image_listed_as(ready, listed, handle, listing, key, image, listed_stem(file));
    stored_is_found(ready.objects, ObjectEntry { handle, object: listing }, handle);
    stored_is_found(
        listed.objects,
        ObjectEntry { handle: image, object: definition },
        handle,
    );
    stored_is_found(listed.objects, ObjectEntry { handle: image, object: definition }, image);
    free_keys_are_new(entries_of(before, handle), listed_stem(file), key);
}

/// A drawing with a root dictionary gets an image dictionary with its first image: the
/// root lists it, it is owned by the root, and the image is listed in it by the name of
/// its file.
pub proof fn first_image_makes_the_dictionary(
    before: DocumentView,
    after: DocumentView,
    path: Seq<char>,
    file: ImageFile,
)
    requires
        image_added(before, after, path, file),
        before.spare(2),
        dictionary(before, before.header.named_objects_dict_handle) is Some,
        image_dictionary(before) is None,
        before.header.named_objects_dict_handle.value < before.next_handle,
    ensures
        ({
            let root = before.header.named_objects_dict_handle;
            let handle = Handle { value: (before.next_handle + 1) as u64 };
            let listed = entries_of(after, handle);
            &&& dictionary(after, handle) is Some
            &&& dictionary(after, handle)->Some_0.owner == root
            &&& listed.len() == 1
            &&& listed[0].0 == listed_stem(file)
            &&& listed[0].1 == before.next_handle
            &&& dictionary(after, root) is Some
            &&& entries_of(after, root).len() == entries_of(before, root).len() + 1
            &&& entries_of(after, root).last() == ("ACAD_IMAGE_DICT"@, handle.value)
            &&& forall|i: int|
                0 <= i < entries_of(before, root).len() ==> (#[trigger] entries_of(
                    after,
                    root,
                )[i]) == entries_of(before, root)[i]
        }),
{
    let root = before.header.named_objects_dict_handle;
    let image = Handle { value: before.next_handle };
    let handle = Handle { value: (before.next_handle + 1) as u64 };
    let numbered = DocumentView { next_handle: (before.next_handle + 1) as u64, ..before };
    let (owner, ready, listed, definition) = choose|
        owner: Option<Handle>,
        ready: DocumentView,
        listed: DocumentView,
        definition: ObjectType,
    |
        {
            &&& #[trigger] image_dictionary_ready(numbered, ready, owner)
            &&& #[trigger] image_listed(ready, listed, owner, image, listed_stem(file))
            &&& #[trigger] crate::images::defines_image(definition, image, owner, path, file)
            &&& after == (DocumentView {
                objects: stored(
                    listed.objects,
                    ObjectEntry { handle: image, object: definition },
                ),
                ..listed
            })
        };
    assert(image_dictionary(numbered) == image_dictionary(before));
    assert(dictionary(numbered, root) == dictionary(before, root));
    assert(owner == Some(handle));
    let (fresh, rooted) = choose|fresh: ObjectType, rooted: ObjectType| #[trigger]
        image_dictionary_made(numbered, ready, fresh, rooted);
    let middle = stored(numbered.objects, ObjectEntry { handle, object: fresh });
    stored_is_found(numbered.objects, ObjectEntry { handle, object: fresh }, handle);
    stored_is_found(numbered.objects, ObjectEntry { handle, object: fresh }, root);
    stored_is_found(middle, ObjectEntry { handle: root, object: rooted }, handle);
    stored_is_found(middle, ObjectEntry { handle: root, object: rooted }, root);
    assert(dictionary(ready, handle) is Some);
    let (listing, key) = choose|listing: ObjectType, key: Seq<char>| #[trigger]
        image_listed_as(ready, listed, handle, listing, key, image, listed_stem(file));
    stored_is_found(ready.objects, ObjectEntry { handle, object: listing }, handle);
    stored_is_found(ready.objects, ObjectEntry { handle, object: listing }, root);
    stored_is_found(
        listed.objects,
        ObjectEntry { handle: image, object: definition },
        handle,
    );
    stored_is_found(listed.objects, ObjectEntry { handle: image, object: definition }, root);
    free_keys_are_new(entries_of(ready, handle), listed_stem(file), key);
}

/// A file without a name of its own is listed as `IMAGE`.
pub proof fn nameless_files_are_images(file: ImageFile)
    ensures
        file.stem is Some && file.stem->Some_0@.len() > 0 ==> listed_stem(file)
            == file.stem->Some_0@,
        file.stem is None || file.stem->Some_0@.len() == 0 ==> listed_stem(file) == "IMAGE"@,
{
}

/// A command in another process stays the same one. What its process last said of its
/// prompt and of the pick that it waits for counts; without a word there is no prompt
/// and no pick.
pub proof fn last_words_count(
    before: PluginProcessInteractiveAdapter,
    prompt: Option<String>,
    needs_entity_pick: Option<bool>,
)
    ensures
        ({
            let after = after_event(before, prompt, needs_entity_pick);
            &&& after.command_id == before.command_id
            &&& prompt is Some ==> said_prompt(after.prompt) == prompt->Some_0@
            &&& prompt is None ==> said_prompt(after.prompt).len() == 0
            &&& needs_entity_pick is Some ==> said_pick(after.needs_entity_pick)
                == needs_entity_pick->Some_0
            &&& needs_entity_pick is None ==> !said_pick(after.needs_entity_pick)
        }),
{
    reveal_strlit("");
}

} // verus!
