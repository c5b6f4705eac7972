//! A model of the storage medium, and what holds of the service when its
//! artifacts are persisted on it.
//!
//! The medium is a flat namespace from paths to bytes. The service itself
//! never touches it: a caller writes each artifact that an upload returns and
//! reads the path that a download looks up. The model says what such a caller
//! sees on a medium that stores what it is given and nothing else.

use vstd::prelude::*;
use crate::codec::{decoded_bitmap, encoded, transformed, BitmapView};
use crate::model::{ImageView, StorageError};
use crate::naming::{
    edited_path_view, key_view, law_key_identifies_upload, law_name_alone_is_no_key, law_path_identifies_key,
};
use crate::registry::Transform;
use crate::storage::{download_result, upload_fault, upload_result, ArtifactView};

verus! {

/// What the medium answers when asked for the bytes at a path.
pub open spec fn read_at(medium: Map<Seq<char>, Seq<u8>>, path: Seq<char>) -> Result<Seq<u8>, StorageError> {
    if medium.dom().contains(path) {
        Ok(medium[path])
    } else {
        Err(StorageError::NotFound)
    }
}

/// The medium once the caller has acted on an upload's result: a returned
/// artifact is written at its path, a failed upload writes nothing.
pub open spec fn persisted(medium: Map<Seq<char>, Seq<u8>>, upload: Result<ArtifactView, StorageError>) -> Map<Seq<char>, Seq<u8>> {
    match upload {
        Ok(artifact) => medium.insert(artifact.path, artifact.data),
        Err(_) => medium,
    }
}

/// What a download of the given key returns on the given medium.
pub open spec fn download_from(medium: Map<Seq<char>, Seq<u8>>, key: Seq<char>) -> Result<ImageView, StorageError> {
    download_result(key, read_at(medium, edited_path_view(key)))
}

/// The medium after a history of uploads, each given with the transform that
/// was drawn for it, starting from an empty medium.
pub open spec fn medium_after(history: Seq<(ImageView, Transform)>) -> Map<Seq<char>, Seq<u8>>
    decreases history.len(),
{
    if history.len() == 0 {
        Map::empty()
    } else {
        persisted(medium_after(history.drop_last()), upload_result(history.last().0, history.last().1))
    }
}

/// Whether some upload of the history succeeded and produced the given key.
pub open spec fn was_produced(history: Seq<(ImageView, Transform)>, key: Seq<char>) -> bool {
    exists|i: int|
        0 <= i < history.len() && upload_fault(history[i].0) is None && key == key_view(
            history[i].1,
            #[trigger] history[i].0.name,
        )
}

/// Whether the codec gives back the dimensions of a bitmap that it encoded.
pub open spec fn keeps_dimensions(b: BitmapView) -> bool {
    decoded_bitmap(encoded(b)) matches Some(c) && c.width == b.width && c.height == b.height
}

/// An upload without payload fails with `InvalidInput`, whatever its name
/// and whatever transform would have been drawn, and leaves the medium as it
/// was.
pub proof fn law_empty_upload_is_rejected(medium: Map<Seq<char>, Seq<u8>>, image: ImageView, transform: Transform)
    requires
        image.data.len() == 0,
    ensures
        upload_result(image, transform) == Err::<ArtifactView, StorageError>(StorageError::InvalidInput),
        persisted(medium, upload_result(image, transform)) == medium,
{
}

/// An upload that fails leaves the medium as it was, and an upload fails or
/// succeeds whatever transform is drawn.
pub proof fn law_failed_upload_persists_nothing(medium: Map<Seq<char>, Seq<u8>>, image: ImageView, transform: Transform)
    requires
        upload_fault(image) is Some,
    ensures
        upload_result(image, transform) == Err::<ArtifactView, StorageError>(upload_fault(image)->0),
        persisted(medium, upload_result(image, transform)) == medium,
{
}

/// A download with the key `{transform}-{name}` looks up exactly the path at
/// which the upload of `name` with that transform had its artifact
/// persisted, and so is handed the artifact's bytes: it returns what it
/// makes of those bytes, under the artifact's path as its name.
pub proof fn law_download_finds_uploaded_artifact(medium: Map<Seq<char>, Seq<u8>>, image: ImageView, transform: Transform)
    requires
        upload_fault(image) is None,
    ensures
        upload_result(image, transform) matches Ok(artifact) && {
            let key = key_view(transform, image.name);
            let after = persisted(medium, upload_result(image, transform));
            &&& edited_path_view(key) == artifact.path
            &&& read_at(after, artifact.path) == Ok::<Seq<u8>, StorageError>(artifact.data)
            &&& download_from(after, key) == download_result(key, Ok(artifact.data))
            &&& download_from(after, key) matches Ok(found) ==> found.name == artifact.path
        },
{
}

/// Upload, then download with the derived key, on a codec that gives back
/// the dimensions of what it encoded (for the transformed upload and for the
/// artifact as the download decoded it): the download succeeds, and what it
/// returns decodes to the dimensions of the uploaded image.
pub proof fn law_round_trip_where_codec_keeps_dimensions(medium: Map<Seq<char>, Seq<u8>>, image: ImageView, transform: Transform)
    requires
        upload_fault(image) is None,
        keeps_dimensions(transformed(decoded_bitmap(image.data)->0, transform)),
        keeps_dimensions(decoded_bitmap(encoded(transformed(decoded_bitmap(image.data)->0, transform)))->0),
    ensures
        ({
            let uploaded = decoded_bitmap(image.data)->0;
            let after = persisted(medium, upload_result(image, transform));
            &&& download_from(after, key_view(transform, image.name)) matches Ok(found)
            &&& decoded_bitmap(found.data) matches Some(back)
            &&& back.width == uploaded.width
            &&& back.height == uploaded.height
        }),
{
    law_download_finds_uploaded_artifact(medium, image, transform);
}

/// Every path of the medium after a history of uploads is the path of a key
/// that one of them produced.
pub proof fn law_medium_holds_produced_keys_only(history: Seq<(ImageView, Transform)>, path: Seq<char>)
    requires
        medium_after(history).dom().contains(path),
    ensures
        exists|key: Seq<char>| #[trigger] was_produced(history, key) && path == edited_path_view(key),
    decreases history.len(),
{
    if history.len() > 0 {
        let front = history.drop_last();
        let (image, transform) = history.last();
        let last = history.len() - 1;
        if medium_after(front).dom().contains(path) {
            law_medium_holds_produced_keys_only(front, path);
            let key = choose|key: Seq<char>| #[trigger] was_produced(front, key) && path == edited_path_view(key);
            let i = choose|i: int|
                0 <= i < front.len() && upload_fault(front[i].0) is None && key == key_view(
                    front[i].1,
                    #[trigger] front[i].0.name,
                );
            assert(history[i] == front[i]);
            assert(was_produced(history, key));
        } else {
            let key = key_view(transform, image.name);
            assert(upload_fault(image) is None);
            assert(history[last].0.name == image.name);
            assert(was_produced(history, key));
            assert(path == edited_path_view(key));
        }
    }
}

/// A download with an identifier that no upload produced fails with
/// `NotFound`: the transform's prefix is part of the key.
pub proof fn law_unknown_key_is_not_found(history: Seq<(ImageView, Transform)>, key: Seq<char>)
    requires
        !was_produced(history, key),
    ensures
        download_from(medium_after(history), key) == Err::<ImageView, StorageError>(StorageError::NotFound),
{
    let path = edited_path_view(key);
    if medium_after(history).dom().contains(path) {
        law_medium_holds_produced_keys_only(history, path);
        let other = choose|other: Seq<char>| #[trigger] was_produced(history, other) && path == edited_path_view(other);
        law_path_identifies_key(key, other);
    }
}

/// After a single upload of `name`, on a medium that was empty, a download
/// finds nothing under the name alone, nor under the name with the prefix of
/// a transform other than the one that was drawn.
pub proof fn law_wrong_prefix_is_not_found(image: ImageView, drawn: Transform, other: Transform)
    ensures
        download_from(medium_after(seq![(image, drawn)]), image.name) == Err::<ImageView, StorageError>(
            StorageError::NotFound,
        ),
        other != drawn ==> download_from(medium_after(seq![(image, drawn)]), key_view(other, image.name)) == Err::<
            ImageView,
            StorageError,
        >(StorageError::NotFound),
{
    let history = seq![(image, drawn)];
    assert(!was_produced(history, image.name)) by {
        if was_produced(history, image.name) {
            law_name_alone_is_no_key(drawn, image.name);
        }
    }
    law_unknown_key_is_not_found(history, image.name);
    if other != drawn {
        assert(!was_produced(history, key_view(other, image.name))) by {
            if was_produced(history, key_view(other, image.name)) {
                law_key_identifies_upload(other, image.name, drawn, image.name);
            }
        }
        law_unknown_key_is_not_found(history, key_view(other, image.name));
    }
}

/// A download answers from what the medium holds at its own path alone: on
/// two media that agree there it returns the same.
pub proof fn law_download_reads_own_path_only(first: Map<Seq<char>, Seq<u8>>, second: Map<Seq<char>, Seq<u8>>, key: Seq<char>)
    requires
        read_at(first, edited_path_view(key)) == read_at(second, edited_path_view(key)),
    ensures
        download_from(first, key) == download_from(second, key),
{
}

/// Downloads of distinct keys do not interfere: whatever is persisted under
/// one key, then or later, a download of the other returns the same.
pub proof fn law_downloads_do_not_interfere(medium: Map<Seq<char>, Seq<u8>>, key: Seq<char>, other: Seq<char>, bytes: Seq<u8>)
    requires
        key != other,
    ensures
        edited_path_view(key) != edited_path_view(other),
        download_from(medium.insert(edited_path_view(other), bytes), key) == download_from(medium, key),
{
    if edited_path_view(key) == edited_path_view(other) {
        law_path_identifies_key(key, other);
    }
}

} // verus!
