//! What a client computes around its two requests: the image it sends for a
//! file it read, and the file it stores for an image it received.

use vstd::prelude::*;
use vstd::string::*;
use crate::codec::{decode, decoded_bitmap, encode, encoded};
use crate::model::{Image, ImageView, StorageError, StorageResponse};
use crate::naming::{output_path, output_path_view, short_name, short_name_view};
use crate::storage::STATUS_SAVED;

verus! {

/// What a client asks its file system to store after a download.
#[derive(Clone, Debug, PartialEq, Eq)]
pub struct SavedFile {
    /// Where to write: the local output root and the requested key.
    pub path: String,
    /// What to write: the received image, encoded again.
    pub data: Vec<u8>,
}

/// A [`SavedFile`] as a mathematical value.
pub struct SavedFileView {
    pub path: Seq<char>,
    pub data: Seq<u8>,
}

impl View for SavedFile {
    type V = SavedFileView;

    open spec fn view(&self) -> SavedFileView {
        SavedFileView { path: self.path@, data: self.data@ }
    }
}

/// The image a client sends for the file at `path` with the given contents:
/// named by the path's last segment, carrying the contents decoded and
/// encoded again; a decode fault where the contents are no image.
pub open spec fn outgoing_result(path: Seq<char>, contents: Seq<u8>) -> Result<ImageView, StorageError> {
    match decoded_bitmap(contents) {
        Some(b) => Ok(ImageView { name: short_name_view(path), data: encoded(b) }),
        None => Err(StorageError::DecodeFault),
    }
}

/// The file a client stores for the image it received under `key`: under the
/// local output root, the image decoded and encoded again; a decode fault
/// where it carries no image.
pub open spec fn incoming_result(key: Seq<char>, image: ImageView) -> Result<SavedFileView, StorageError> {
    match decoded_bitmap(image.data) {
        Some(b) => Ok(SavedFileView { path: output_path_view(key), data: encoded(b) }),
        None => Err(StorageError::DecodeFault),
    }
}

/// Builds the image to upload from a file's path and contents.
pub fn outgoing_image(path: &str, contents: &[u8]) -> (r: Result<Image, StorageError>)
    ensures
        match r {
            Ok(image) => outgoing_result(path@, contents@) == Ok::<ImageView, StorageError>(image@),
            Err(e) => outgoing_result(path@, contents@) == Err::<ImageView, StorageError>(e),
        },
{
    match decode(contents) {
        Ok(b) => Ok(Image::new(short_name(path), encode(&b))),
        Err(e) => Err(e),
    }
}

/// Builds the file to store from the key that was asked for and the image
/// that came back.
pub fn incoming_file(key: &str, image: &Image) -> (r: Result<SavedFile, StorageError>)
    ensures
        match r {
            Ok(file) => incoming_result(key@, image@) == Ok::<SavedFileView, StorageError>(file@),
            Err(e) => incoming_result(key@, image@) == Err::<SavedFileView, StorageError>(e),
        },
{
    match decode(image.data.as_slice()) {
        Ok(b) => Ok(SavedFile { path: output_path(key), data: encode(&b) }),
        Err(e) => Err(e),
    }
}

/// Whether a response acknowledges that the image was saved.
pub fn is_saved(response: &StorageResponse) -> (b: bool)
    ensures
        b == (response.status@ == STATUS_SAVED@),
{
    let expected = String::from_str(STATUS_SAVED);
    response.status == expected
}

} // verus!
