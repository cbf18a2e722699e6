//! Image definitions and the dictionary that lists them.

use crate::document::{
    object_with, CadDocument, DictionaryObject, DocumentView, ImageDefinition, ObjectEntry,
    ObjectType,
};
use crate::entities::{Clip, EntityData, EntityType, RasterImage};
use crate::agree::share;
use crate::geometry::{target, target_of, Handle, Vector2};
use crate::outside::{
    dictionary_add, dictionary_copy, dictionary_entries, dictionary_get, dictionary_len,
    dictionary_value, entry_for, new_dictionary,
};
use crate::scalar::Scalar;
use crate::search::{item, pick, seek, seek_finds};
use crate::text::{
    alike, ascii_lower, decimal, fault, is_same, join3, wide_number, quote, quoted, Fault,
};
use std::sync::Arc;
use vstd::arithmetic::power2::pow2;
use vstd::prelude::*;
use vstd::relations::injective_on;
use vstd::set_lib::{lemma_int_range, lemma_len_subset, lemma_map_size, set_int_range};
use vstd::string::*;

verus! {

/// What is read of an image file.
pub struct ImageFile {
    /// The size in pixels.
    pub width: u32,
    pub height: u32,
    /// The name of the file without its directory and its extension, where that
    /// is text.
    pub stem: Option<String>,
}

/// The objects with one more, or with another one in the place of that with the
/// same handle.
pub open spec fn stored(objects: Seq<ObjectEntry>, entry: ObjectEntry) -> Seq<ObjectEntry> {
    match seek(objects, 0, object_with(entry.handle)) {
        Some(i) => objects.update(i, entry),
        None => objects.push(entry),
    }
}

/// What is stored is found under its handle, and everything else where it was.
pub proof fn stored_is_found(objects: Seq<ObjectEntry>, entry: ObjectEntry, handle: Handle)
    ensures
        pick(stored(objects, entry), object_with(handle)) == (if handle == entry.handle {
            Some(entry)
        } else {
            pick(objects, object_with(handle))
        }),
{
    let after = stored(objects, entry);
    seek_finds(objects, 0, object_with(entry.handle));
    seek_finds(objects, 0, object_with(handle));
    seek_finds(after, 0, object_with(handle));
    match seek(objects, 0, object_with(entry.handle)) {
        Some(i) => {
            assert(after[i] == entry);
            assert forall|j: int| 0 <= j < objects.len() && j != i implies after[j] == objects[j] by {}
        },
        None => {
            assert(after[objects.len() as int] == entry);
            assert forall|j: int| 0 <= j < objects.len() implies after[j] == objects[j] by {}
        },
    }
    match seek(objects, 0, object_with(handle)) {
        Some(k) => {
            assert(object_with(handle)(objects[k]));
            if handle != entry.handle {
                assert(object_with(handle)(after[k]));
            }
        },
        None => {},
    }
    match seek(after, 0, object_with(handle)) {
        Some(k) => {
            assert(object_with(handle)(after[k]));
        },
        None => {},
    }
}

/// The dictionary with a handle.
pub open spec fn dictionary(doc: DocumentView, handle: Handle) -> Option<DictionaryObject> {
    match doc.object(handle) {
        Some(ObjectType::Dictionary(value)) => Some(*value),
        _ => None,
    }
}

/// The object is a dictionary with the owner and the entries.
pub open spec fn lists(
    object: ObjectType,
    owner: Handle,
    entries: Seq<(Seq<char>, u64)>,
) -> bool {
    object matches ObjectType::Dictionary(value) && value.owner == owner && dictionary_entries(
        value.entries,
    ) == entries
}

/// The image dictionary that a drawing has.
pub open spec fn image_dictionary(doc: DocumentView) -> Option<Handle> {
    match dictionary(doc, doc.header.named_objects_dict_handle) {
        Some(root) => match dictionary_value(
            dictionary_entries(root.entries),
            "ACAD_IMAGE_DICT"@,
        ) {
            Some(value) => if dictionary(doc, Handle { value }) is Some {
                Some(Handle { value })
            } else {
                None
            },
            None => None,
        },
        None => None,
    }
}

/// A new empty dictionary is in the drawing, and the root dictionary lists it.
pub open spec fn image_dictionary_made(
    before: DocumentView,
    after: DocumentView,
    fresh: ObjectType,
    listing: ObjectType,
) -> bool {
    let root = before.header.named_objects_dict_handle;
    let handle = Handle { value: before.next_handle };
    let middle = DocumentView {
        next_handle: (before.next_handle + 1) as u64,
        objects: stored(before.objects, ObjectEntry { handle, object: fresh }),
        ..before
    };
    &&& lists(fresh, root, Seq::empty())
    &&& dictionary(middle, root) matches Some(old_root) && lists(
        listing,
        old_root.owner,
        dictionary_entries(old_root.entries).push(("ACAD_IMAGE_DICT"@, handle.value)),
    )
    &&& after == (DocumentView {
        objects: stored(middle.objects, ObjectEntry { handle: root, object: listing }),
        ..middle
    })
}

/// The drawing has an image dictionary: the one that was there, or a new empty
/// one that the root dictionary lists. A drawing without a root stays as it is.
pub open spec fn image_dictionary_ready(
    before: DocumentView,
    after: DocumentView,
    result: Option<Handle>,
) -> bool {
    let root = before.header.named_objects_dict_handle;
    if dictionary(before, root) is None || image_dictionary(before) is Some {
        after == before && result == image_dictionary(before)
    } else {
        let handle = Handle { value: before.next_handle };
        &&& result == Some(handle)
        &&& exists|fresh: ObjectType, listing: ObjectType| #[trigger]
            image_dictionary_made(before, after, fresh, listing)
    }
}

/// A key for an image: the name of its file, and behind that a number from two
/// up.
pub open spec fn candidate(stem: Seq<char>, number: nat) -> Seq<char> {
    if number <= 1 {
        stem
    } else {
        stem + "_"@ + decimal(number)
    }
}

/// A dictionary has an entry under the key.
pub open spec fn taken(entries: Seq<(Seq<char>, u64)>, key: Seq<char>) -> bool {
    dictionary_value(entries, key) is Some
}

/// The key is the first candidate that is not taken.
pub open spec fn free_key(entries: Seq<(Seq<char>, u64)>, stem: Seq<char>, key: Seq<char>) -> bool {
    exists|number: nat|
        {
            &&& number >= 1
            &&& key == #[trigger] candidate(stem, number)
            &&& !taken(entries, key)
            &&& forall|j: nat| 1 <= j < number ==> taken(entries, #[trigger] candidate(stem, j))
        }
}

/// Different numbers read differently, whatever the case of letters.
proof fn decimals_differ(a: nat, b: nat)
    requires
        alike(decimal(a), decimal(b)),
    ensures
        a == b,
    decreases a,
{
    let left = decimal(a);
    let right = decimal(b);
    assert(ascii_lower(left[left.len() - 1]) == ascii_lower(right[left.len() - 1]));
    decimal_shape(a);
    decimal_shape(b);
    if a >= 10 && b >= 10 {
        assert forall|i: int| 0 <= i < decimal(a / 10).len() implies ascii_lower(
            #[trigger] decimal(a / 10)[i],
        ) == ascii_lower(decimal(b / 10)[i]) by {
            assert(left[i] == decimal(a / 10)[i]);
            assert(right[i] == decimal(b / 10)[i]);
        }
        decimals_differ(a / 10, b / 10);
    }
}

proof fn decimal_shape(n: nat)
    ensures
        decimal(n).len() >= 1,
        n >= 10 ==> decimal(n).len() >= 2,
        n < 10 ==> decimal(n).len() == 1,
    decreases n,
{
    if n >= 10 {
        decimal_shape(n / 10);
    }
}

/// Different candidates are different keys.
proof fn candidates_differ(stem: Seq<char>, a: nat, b: nat)
    requires
        a >= 1,
        b >= 1,
        alike(candidate(stem, a), candidate(stem, b)),
    ensures
        a == b,
{
    reveal_strlit("_");
    decimal_shape(a);
    decimal_shape(b);
    if a >= 2 && b >= 2 {
        let left = candidate(stem, a);
        let right = candidate(stem, b);
        let skip = stem.len() + 1;
        assert forall|i: int| 0 <= i < decimal(a).len() implies ascii_lower(
            #[trigger] decimal(a)[i],
        ) == ascii_lower(decimal(b)[i]) by {
            assert(left[skip + i] == decimal(a)[i]);
            assert(right[skip + i] == decimal(b)[i]);
        }
        decimals_differ(a, b);
    }
}

/// A dictionary takes no more candidates than it has entries.
proof fn entries_bound_candidates(entries: Seq<(Seq<char>, u64)>, stem: Seq<char>, count: nat)
    requires
        forall|j: nat| 1 <= j <= count ==> taken(entries, #[trigger] candidate(stem, j)),
    ensures
        count <= entries.len(),
{
    let places = |j: int| seek(entries, 0, entry_for(candidate(stem, j as nat)))->Some_0;
    let numbers = set_int_range(1, count as int + 1);
    let indices = set_int_range(0, entries.len() as int);
    lemma_int_range(1, count as int + 1);
    lemma_int_range(0, entries.len() as int);
    assert forall|a: int| numbers.contains(a) implies indices.contains(#[trigger] places(a)) && alike(
        entries[places(a)].0,
        candidate(stem, a as nat),
    ) by {
        assert(taken(entries, candidate(stem, a as nat)));
        seek_finds(entries, 0, entry_for(candidate(stem, a as nat)));
    }
    assert(injective_on(places, numbers)) by {
        assert forall|a: int, b: int|
            numbers.contains(a) && numbers.contains(b) && #[trigger] places(a) == #[trigger] places(
                b,
            ) implies a == b by {
            let key = entries[places(a)].0;
            let left = candidate(stem, a as nat);
            let right = candidate(stem, b as nat);
            assert(alike(key, left) && alike(key, right));
            assert forall|i: int| 0 <= i < left.len() implies ascii_lower(#[trigger] left[i])
                == ascii_lower(right[i]) by {
                assert(ascii_lower(key[i]) == ascii_lower(left[i]));
                assert(ascii_lower(key[i]) == ascii_lower(right[i]));
            }
            candidates_differ(stem, a as nat, b as nat);
        }
    }
    lemma_map_size(numbers, numbers.map(places), places);
    assert(numbers.map(places).subset_of(indices)) by {
        assert forall|x: int| numbers.map(places).contains(x) implies indices.contains(x) by {
            let a = choose|a: int| numbers.contains(a) && places(a) == x;
            assert(indices.contains(places(a)));
        }
    }
    lemma_len_subset(numbers.map(places), indices);
}

/// The first key for an image that a dictionary has not taken.
fn unique_key(dictionary: &acadrust::objects::Dictionary, stem: &str) -> (result: String)
    ensures
        free_key(dictionary_entries(*dictionary), stem@, result@),
{
    let ghost entries = dictionary_entries(*dictionary);
    let count: usize = dictionary_len(dictionary);
    let mut key = stem.to_owned();
    let mut suffix: u128 = 1;
    while dictionary_get(dictionary, &key).is_some()
        invariant
            entries == dictionary_entries(*dictionary),
            count == entries.len(),
            1 <= suffix <= count + 1,
            key@ == candidate(stem@, suffix as nat),
            forall|j: nat| 1 <= j < suffix ==> taken(entries, #[trigger] candidate(stem@, j)),
        decreases count + 1 - suffix,
    {
        proof {
            assert forall|j: nat| 1 <= j <= suffix implies taken(
                entries,
                #[trigger] candidate(stem@, j),
            ) by {
                if j == suffix {
                    assert(taken(entries, key@));
                }
            }
            entries_bound_candidates(entries, stem@, suffix as nat);
        }
        suffix = suffix + 1;
        key = join3(stem, "_", &wide_number(suffix));
    }
    proof {
        assert(key@ == candidate(stem@, suffix as nat));
    }
    key
}

/// The object defines the image of a file.
pub open spec fn image_definition_of(path: Seq<char>) -> spec_fn(ObjectEntry) -> bool {
    |entry: ObjectEntry|
        match entry.object {
            ObjectType::ImageDefinition(definition) => definition.file_name@ == path,
            _ => false,
        }
}

/// The object is the definition of an image.
pub open spec fn defines_image(
    object: ObjectType,
    handle: Handle,
    owner: Option<Handle>,
    path: Seq<char>,
    file: ImageFile,
) -> bool {
    object matches ObjectType::ImageDefinition(definition) && {
        &&& definition.handle == handle
        &&& definition.owner == (match owner {
            Some(dictionary) => dictionary,
            None => Handle { value: 0 },
        })
        &&& definition.file_name@ == path
        &&& definition.width == file.width
        &&& definition.height == file.height
        &&& definition.is_loaded
    }
}

/// The name under which a file is listed.
pub open spec fn listed_stem(file: ImageFile) -> Seq<char> {
    match file.stem {
        Some(stem) => if stem@.len() > 0 {
            stem@
        } else {
            "IMAGE"@
        },
        None => "IMAGE"@,
    }
}

/// A dictionary lists the image under a key that was free.
pub open spec fn image_listed_as(
    before: DocumentView,
    after: DocumentView,
    handle: Handle,
    listing: ObjectType,
    key: Seq<char>,
    image: Handle,
    stem: Seq<char>,
) -> bool {
    &&& dictionary(before, handle) matches Some(old_dictionary) && free_key(
        dictionary_entries(old_dictionary.entries),
        stem,
        key,
    ) && lists(
        listing,
        old_dictionary.owner,
        dictionary_entries(old_dictionary.entries).push((key, image.value)),
    )
    &&& after == (DocumentView {
        objects: stored(before.objects, ObjectEntry { handle, object: listing }),
        ..before
    })
}

/// The dictionary, where there is one, lists the image under a free key.
pub open spec fn image_listed(
    before: DocumentView,
    after: DocumentView,
    dictionary_handle: Option<Handle>,
    image: Handle,
    stem: Seq<char>,
) -> bool {
    match dictionary_handle {
        None => after == before,
        Some(handle) => match dictionary(before, handle) {
            None => after == before,
            Some(_) => exists|listing: ObjectType, key: Seq<char>|
#[trigger]
                image_listed_as(before, after, handle, listing, key, image, stem),
        },
    }
}

/// A definition for the image of a file was added: it has the next handle, the
/// image dictionary owns it and lists it.
pub open spec fn image_added(
    before: DocumentView,
    after: DocumentView,
    path: Seq<char>,
    file: ImageFile,
) -> bool {
    let handle = Handle { value: before.next_handle };
    exists|
        owner: Option<Handle>,
        ready: DocumentView,
        listed: DocumentView,
        definition: ObjectType,
    |
        {
            &&& #[trigger] image_dictionary_ready(
                DocumentView { next_handle: (before.next_handle + 1) as u64, ..before },
                ready,
                owner,
            )
            &&& #[trigger] image_listed(ready, listed, owner, handle, listed_stem(file))
            &&& #[trigger] defines_image(definition, handle, owner, path, file)
            &&& after == (DocumentView {
                objects: stored(listed.objects, ObjectEntry { handle, object: definition }),
                ..listed
            })
        }
}

/// The definition of the image of a file in a drawing.
pub open spec fn image_definition(doc: DocumentView, path: Seq<char>) -> Option<Handle> {
    match pick(doc.objects, image_definition_of(path)) {
        Some(entry) => Some(entry.handle),
        None => None,
    }
}

/// The image needs a definition: it is new and names a file.
pub open spec fn undefined_image(entity: EntityType) -> Option<RasterImage> {
    match entity.data {
        EntityData::RasterImage(image) => if target(image.definition_handle) is Some {
            None
        } else {
            Some(*image)
        },
        _ => None,
    }
}

/// The image with a definition and the size of its file. What showed of the
/// image still does: a clip that covered all of it covers all of it.
pub open spec fn image_linked(
    before: EntityType,
    after: EntityType,
    handle: Handle,
    file: ImageFile,
) -> bool {
    &&& after.common == before.common
    &&& after.record == before.record
    &&& before.data matches EntityData::RasterImage(old_image)
    &&& after.data matches EntityData::RasterImage(image) && *image == (RasterImage {
        definition_handle: Some(handle),
        size: image.size,
        ..*old_image
    }) && {
        &&& image.size.x.finite() && image.size.x.value() == file.width * pow2(1074)
        &&& image.size.y.finite() && image.size.y.value() == file.height * pow2(1074)
    }
}

impl Clip {
    pub fn copy(&self) -> (result: Self)
        ensures
            result == *self,
    {
        match self {
            Clip::WholeImage => Clip::WholeImage,
            Clip::Boundary(bytes) => Clip::Boundary(share(bytes)),
        }
    }
}

impl CadDocument {
    /// Puts an object under a handle.
    pub fn put_object(&mut self, handle: Handle, object: ObjectType)
        ensures
            final(self)@ == (DocumentView {
                objects: stored(old(self)@.objects, ObjectEntry { handle, object }),
                ..old(self)@
            }),
    {
        let entry = ObjectEntry { handle, object };
        match self.find_object(handle) {
            Some(i) => self.objects.set(i, entry),
            None => self.objects.push(entry),
        }
    }

    /// The dictionary with a handle.
    pub fn get_dictionary(&self, handle: Handle) -> (result: Option<&DictionaryObject>)
        ensures
            item(result) == dictionary(self@, handle),
    {
        match self.get_object(handle) {
            Some(ObjectType::Dictionary(value)) => Some(value),
            _ => None,
        }
    }

    /// The image dictionary, made where the drawing has none. A drawing without
    /// a root dictionary cannot have one.
    pub fn ensure_image_dictionary(&mut self) -> (result: Option<Handle>)
        requires
            old(self)@.spare(1),
        ensures
            image_dictionary_ready(old(self)@, final(self)@, result),
    {
        let ghost before = self@;
        let root = self.header.named_objects_dict_handle;
        match self.get_dictionary(root) {
            None => {
                return None;
            },
            Some(listing) => {
                if let Some(value) = dictionary_get(&listing.entries, "ACAD_IMAGE_DICT") {
                    if self.get_dictionary(Handle { value }).is_some() {
                        return Some(Handle { value });
                    }
                }
            },
        }
        let handle = self.allocate_handle();
        let fresh = ObjectType::Dictionary(
            Arc::new(DictionaryObject { owner: root, entries: new_dictionary() }),
        );
        let ghost fresh_object = fresh;
        self.put_object(handle, fresh);
        let ghost middle = self@;
        let listing: Option<DictionaryObject> = match self.get_dictionary(root) {
            Some(old_root) => {
                let mut entries = dictionary_copy(&old_root.entries);
                dictionary_add(&mut entries, "ACAD_IMAGE_DICT", handle.value);
                Some(DictionaryObject { owner: old_root.owner, entries })
            },
            None => None,
        };
        proof {
            stored_is_found(before.objects, ObjectEntry { handle, object: fresh_object }, root);
        }
        if let Some(listing) = listing {
            let object = ObjectType::Dictionary(Arc::new(listing));
            let ghost listed_object = object;
            self.put_object(root, object);
            proof {
                assert(image_dictionary_made(before, self@, fresh_object, listed_object));
            }
        } else {
            proof {
                assert(false);
            }
        }
        Some(handle)
    }

    /// The definition of the image of a file.
    fn find_image_definition(&self, path: &str) -> (result: Option<Handle>)
        ensures
            result == image_definition(self@, path@),
    {
        let mut i: usize = 0;
        while i < self.objects.len()
            invariant
                i <= self.objects.len(),
                seek(self.objects@, 0, image_definition_of(path@)) == seek(
                    self.objects@,
                    i as int,
                    image_definition_of(path@),
                ),
            decreases self.objects.len() - i,
        {
            if let ObjectType::ImageDefinition(definition) = &self.objects[i].object {
                if is_same(&definition.file_name, path) {
                    return Some(self.objects[i].handle);
                }
            }
            i = i + 1;
        }
        None
    }

    /// Lists an image in a dictionary.
    fn list_image(&mut self, dictionary_handle: Option<Handle>, image: Handle, stem: &str)
        ensures
            image_listed(old(self)@, final(self)@, dictionary_handle, image, stem@),
    {
        if let Some(handle) = dictionary_handle {
            let listing: Option<(DictionaryObject, String)> = match self.get_dictionary(handle) {
                Some(found) => {
                    let key = unique_key(&found.entries, stem);
                    let mut entries = dictionary_copy(&found.entries);
                    dictionary_add(&mut entries, &key, image.value);
                    Some((DictionaryObject { owner: found.owner, entries }, key))
                },
                None => None,
            };
            if let Some((listing, key)) = listing {
                let object = ObjectType::Dictionary(Arc::new(listing));
                let ghost listed_object = object;
                let ghost before = self@;
                self.put_object(handle, object);
                proof {
                    assert(image_listed_as(
                        before,
                        self@,
                        handle,
                        listed_object,
                        key@,
                        image,
                        stem@,
                    ));
                }
            }
        }
    }

    /// Adds a definition for the image of a file.
    fn add_image_definition(&mut self, path: &str, file: &ImageFile) -> (result: Handle)
        requires
            old(self)@.spare(2),
        ensures
            result.value == old(self)@.next_handle,
            image_added(old(self)@, final(self)@, path@, *file),
    {
        let handle = self.allocate_handle();
        let owner = self.ensure_image_dictionary();
        let ghost ready = self@;
        let stem = match &file.stem {
            Some(stem) => if stem.as_str().unicode_len() > 0 {
                stem.clone()
            } else {
                "IMAGE".to_owned()
            },
            None => "IMAGE".to_owned(),
        };
        self.list_image(owner, handle, &stem);
        let ghost listed = self@;
        let definition = ObjectType::ImageDefinition(
            Arc::new(
                ImageDefinition {
                    handle,
                    owner: match owner {
                        Some(dictionary) => dictionary,
                        None => Handle { value: 0 },
                    },
                    file_name: path.to_owned(),
                    width: file.width,
                    height: file.height,
                    is_loaded: true,
                },
            ),
        );
        let ghost object = definition;
        self.put_object(handle, definition);
        proof {
            assert(image_listed(ready, listed, owner, handle, listed_stem(*file)));
            assert(defines_image(object, handle, owner, path@, *file));
        }
        handle
    }

    /// Gives a scripted image that names a file the definition that it needs. A
    /// drawing keeps one definition for each file. `file` is what was read of the
    /// file, or why it could not be read.
    pub fn prepare_scripted_raster_image(
        &mut self,
        entity: &mut EntityType,
        file: &Result<ImageFile, String>,
    ) -> (result: Result<(), String>)
        requires
            old(self)@.spare(2),
        ensures
            fault(result) == image_fault(*old(entity), *file),
            result is Ok ==> image_prepared(
                old(self)@,
                final(self)@,
                *old(entity),
                *final(entity),
                *file,
            ),
            result is Err ==> final(self)@ == old(self)@ && *final(entity) == *old(entity),
    {
        let linked: RasterImage = match &entity.data {
            EntityData::RasterImage(image) => {
                if target_of(image.definition_handle).is_some() {
                    return Ok(());
                }
                let read = match file {
                    Err(error) => {
                        return Err(
                            crate::text::join(
                                &join3("cannot read image ", &quote(&image.file_path), ": "),
                                error,
                            ),
                        );
                    },
                    Ok(read) => read,
                };
                let handle = match self.find_image_definition(&image.file_path) {
                    Some(handle) => handle,
                    None => self.add_image_definition(&image.file_path, read),
                };
                RasterImage {
                    file_path: image.file_path.clone(),
                    definition_handle: Some(handle),
                    size: Vector2 {
                        x: Scalar::from_u32(read.width),
                        y: Scalar::from_u32(read.height),
                    },
                    clip: image.clip.copy(),
                }
            },
            _ => {
                return Ok(());
            },
        };
        entity.data = EntityData::RasterImage(Arc::new(linked));
        Ok(())
    }
}

/// A scripted image has the definition that it needs: the one that the drawing
/// has for its file, or a new one. Any other entity is as it was.
pub open spec fn image_prepared(
    before: DocumentView,
    after: DocumentView,
    entity: EntityType,
    ready: EntityType,
    file: Result<ImageFile, String>,
) -> bool {
    match undefined_image(entity) {
        None => after == before && ready == entity,
        Some(image) => file matches Ok(read) && match image_definition(before, image.file_path@) {
            Some(handle) => after == before && image_linked(entity, ready, handle, read),
            None => image_added(before, after, image.file_path@, read) && image_linked(
                entity,
                ready,
                Handle { value: before.next_handle },
                read,
            ),
        },
    }
}

/// Preparing an image leaves the entities of the drawing alone and takes at most
/// two handles.
pub proof fn preparing_keeps_entities(
    before: DocumentView,
    after: DocumentView,
    entity: EntityType,
    ready: EntityType,
    file: Result<ImageFile, String>,
)
    requires
        image_prepared(before, after, entity, ready, file),
        before.spare(2),
    ensures
        after.entities == before.entities,
        after.block_records == before.block_records,
        after.layers == before.layers,
        after.header == before.header,
        before.next_handle <= after.next_handle <= before.next_handle + 2,
        ready.common == entity.common,
        ready.data.kind() == entity.data.kind(),
{
}

/// A drawing that took an image in has a definition for its file, so a second
/// image of the file shares it.
pub proof fn image_is_defined_once(
    before: DocumentView,
    after: DocumentView,
    entity: EntityType,
    ready: EntityType,
    file: Result<ImageFile, String>,
)
    requires
        image_prepared(before, after, entity, ready, file),
        undefined_image(entity) is Some,
    ensures
        image_definition(after, undefined_image(entity)->Some_0.file_path@) is Some,
{
    let path = undefined_image(entity)->Some_0.file_path@;
    if image_definition(before, path) is None {
        let (owner, ready_doc, listed, definition) = choose|
            owner: Option<Handle>,
            ready_doc: DocumentView,
            listed: DocumentView,
            definition: ObjectType,
        |
            {
                &&& #[trigger] image_dictionary_ready(
                    DocumentView { next_handle: (before.next_handle + 1) as u64, ..before },
                    ready_doc,
                    owner,
                )
                &&& #[trigger] image_listed(
                    ready_doc,
                    listed,
                    owner,
                    Handle { value: before.next_handle },
                    listed_stem(file->Ok_0),
                )
                &&& #[trigger] defines_image(
                    definition,
                    Handle { value: before.next_handle },
                    owner,
                    path,
                    file->Ok_0,
                )
                &&& after == (DocumentView {
                    objects: stored(
                        listed.objects,
                        ObjectEntry {
                            handle: Handle { value: before.next_handle },
                            object: definition,
                        },
                    ),
                    ..listed
                })
            };
        let handle = Handle { value: before.next_handle };
        let entry = ObjectEntry { handle, object: definition };
        seek_finds(listed.objects, 0, object_with(handle));
        seek_finds(after.objects, 0, image_definition_of(path));
        match seek(listed.objects, 0, object_with(handle)) {
            Some(i) => {
                assert(after.objects[i] == entry);
                assert(image_definition_of(path)(after.objects[i]));
            },
            None => {
                assert(after.objects[listed.objects.len() as int] == entry);
                assert(image_definition_of(path)(after.objects[listed.objects.len() as int]));
            },
        }
    }
}

/// Why a scripted image cannot be given a definition.
pub open spec fn image_fault(entity: EntityType, file: Result<ImageFile, String>) -> Fault {
    match undefined_image(entity) {
        None => None,
        Some(image) => match file {
            Ok(_) => None,
            Err(error) => Some("cannot read image "@ + quoted(image.file_path@) + ": "@ + error@),
        },
    }
}

} // verus!
