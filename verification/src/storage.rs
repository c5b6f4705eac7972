//! The storage service: the single slot that holds the most recent upload,
//! and the two operations on it.
//!
//! The service neither reads nor writes the storage medium. An upload returns
//! the artifact to persist and is acknowledged once the caller reports how the
//! write went; a download is handed what the caller read at the artifact's
//! path.

use vstd::prelude::*;
use vstd::string::*;
use crate::codec::{apply, decode, decoded_bitmap, encode, encoded, transformed, Bitmap, BitmapView};
use crate::model::{empty_image, Image, ImageRequest, ImageView, StorageError, StorageResponse};
use crate::naming::{artifact_key, edited_path, edited_path_view, key_view};
use crate::registry::{pick_transform, Transform};

verus! {

/// Status reported for an upload whose artifact was persisted.
pub const STATUS_SAVED: &'static str = "Image saved";

/// What an upload asks its caller to persist.
#[derive(Clone, Debug, PartialEq, Eq)]
pub struct Artifact {
    /// The transform that was applied.
    pub transform: Transform,
    /// Where to write: the edited-artifacts root and the artifact's key.
    pub path: String,
    /// What to write: the encoded, transformed image.
    pub data: Vec<u8>,
}

/// An [`Artifact`] as a mathematical value.
pub struct ArtifactView {
    pub transform: Transform,
    pub path: Seq<char>,
    pub data: Seq<u8>,
}

impl View for Artifact {
    type V = ArtifactView;

    open spec fn view(&self) -> ArtifactView {
        ArtifactView { transform: self.transform, path: self.path@, data: self.data@ }
    }
}

/// What the storage medium answered when asked for the bytes at a path.
#[derive(Clone, Debug, PartialEq, Eq)]
pub enum ReadOutcome {
    /// The bytes stored at the path.
    Found(Vec<u8>),
    /// Nothing is stored at the path.
    Missing,
    /// The medium failed.
    Failed,
}

/// The fault an upload of the given image ends in, if any: an empty payload
/// is invalid input, one that does not decode to a well-formed bitmap is a
/// decode fault.
pub open spec fn upload_fault(image: ImageView) -> Option<StorageError> {
    if image.data.len() == 0 {
        Some(StorageError::InvalidInput)
    } else if decoded_bitmap(image.data) is None {
        Some(StorageError::DecodeFault)
    } else {
        None
    }
}

/// The artifact that the given transform makes of the decoded image, for an
/// upload under the given name.
pub open spec fn artifact_of(name: Seq<char>, decoded: BitmapView, transform: Transform) -> ArtifactView {
    ArtifactView {
        transform,
        path: edited_path_view(key_view(transform, name)),
        data: encoded(transformed(decoded, transform)),
    }
}

/// What an upload of the given image returns when the given transform is
/// drawn.
pub open spec fn upload_result(image: ImageView, transform: Transform) -> Result<ArtifactView, StorageError> {
    match upload_fault(image) {
        Some(e) => Err(e),
        None => Ok(artifact_of(image.name, decoded_bitmap(image.data)->0, transform)),
    }
}

/// What a download of the given key returns when the medium answered as
/// `found` tells: `Err` of the fault, or the image named by the lookup path
/// that carries the re-encoded artifact.
pub open spec fn download_result(key: Seq<char>, found: Result<Seq<u8>, StorageError>) -> Result<ImageView, StorageError> {
    match found {
        Err(e) => Err(e),
        Ok(bytes) => match decoded_bitmap(bytes) {
            None => Err(StorageError::DecodeFault),
            Some(b) => Ok(ImageView { name: edited_path_view(key), data: encoded(b) }),
        },
    }
}

impl ReadOutcome {
    /// The outcome as a mathematical value: the bytes, or the fault that the
    /// outcome stands for.
    pub open spec fn view(&self) -> Result<Seq<u8>, StorageError> {
        match self {
            ReadOutcome::Found(bytes) => Ok(bytes@),
            ReadOutcome::Missing => Err(StorageError::NotFound),
            ReadOutcome::Failed => Err(StorageError::StorageFault),
        }
    }
}

impl Artifact {
    /// The artifact that `transform` produced for the upload `name`, given
    /// its encoded bytes: keyed `{transform}-{name}` under the
    /// edited-artifacts root.
    pub fn new(transform: Transform, name: &str, data: Vec<u8>) -> (a: Artifact)
        ensures
            a@ == (ArtifactView {
                transform,
                path: edited_path_view(key_view(transform, name@)),
                data: data@,
            }),
    {
        let key = artifact_key(transform, name);
        let path = edited_path(key.as_str());
        Artifact { transform, path, data }
    }
}

/// The storage service. It owns the slot: the one image most recently
/// uploaded, overwritten wholesale by every upload.
#[derive(Debug)]
pub struct PixBoxStorage {
    storage: Image,
}

impl View for PixBoxStorage {
    type V = ImageView;

    /// The image the slot holds.
    closed spec fn view(&self) -> ImageView {
        self.storage@
    }
}

impl PixBoxStorage {
    /// A service whose slot holds the empty placeholder.
    pub fn new() -> (s: PixBoxStorage)
        ensures
            s@ == empty_image(),
    {
        PixBoxStorage { storage: Image::empty() }
    }

    /// The image the slot holds.
    pub fn held(&self) -> (image: &Image)
        ensures
            image@ == self@,
    {
        &self.storage
    }

    /// Takes a request into the slot, overwriting what it held, and decodes
    /// it: the first half of an upload, the same whatever transform is drawn.
    fn take_in(&mut self, image: Image) -> (r: Result<Bitmap, StorageError>)
        ensures
            final(self)@ == image@,
            match r {
                Ok(b) => upload_fault(image@) is None && decoded_bitmap(image@.data) == Some(b@),
                Err(e) => upload_fault(image@) == Some(e),
            },
    {
        self.storage = image;
        if self.storage.is_empty() {
            return Err(StorageError::InvalidInput);
        }
        decode(self.storage.data.as_slice())
    }

    /// Transforms the decoded image of the request in the slot and derives
    /// its artifact: the second half of an upload.
    fn edit(&self, decoded: &Bitmap, transform: Transform) -> (a: Artifact)
        ensures
            a@ == artifact_of(self@.name, decoded@, transform),
    {
        let edited = apply(decoded, transform);
        Artifact::new(transform, self.storage.name.as_str(), encode(&edited))
    }

    /// Handles an upload with the transform already drawn.
    ///
    /// The slot is overwritten with the request whatever the outcome. An
    /// empty payload fails with `InvalidInput`, one that does not decode with
    /// `DecodeFault`. Otherwise the decoded image is transformed and encoded,
    /// and the artifact to persist is returned. The artifact is made of this
    /// request alone: nothing of what the slot held before enters it.
    pub fn upload_with(&mut self, image: Image, transform: Transform) -> (r: Result<Artifact, StorageError>)
        ensures
            final(self)@ == image@,
            image@.data.len() == 0 ==> r == Err::<Artifact, StorageError>(StorageError::InvalidInput),
            match r {
                Ok(a) => upload_result(image@, transform) == Ok::<ArtifactView, StorageError>(a@),
                Err(e) => upload_result(image@, transform) == Err::<ArtifactView, StorageError>(e),
            },
    {
        match self.take_in(image) {
            Ok(decoded) => Ok(self.edit(&decoded, transform)),
            Err(e) => Err(e),
        }
    }

    /// Handles an upload: as [`Self::upload_with`], with a transform drawn at
    /// random from the registry once the payload has been decoded.
    ///
    /// Which transform was drawn shows in the artifact; a failed upload is
    /// the same whatever would have been drawn.
    pub fn upload(&mut self, image: Image) -> (r: Result<Artifact, StorageError>)
        ensures
            final(self)@ == image@,
            image@.data.len() == 0 ==> r == Err::<Artifact, StorageError>(StorageError::InvalidInput),
            match r {
                Ok(a) => upload_result(image@, a.transform) == Ok::<ArtifactView, StorageError>(a@),
                Err(e) => upload_fault(image@) == Some(e),
            },
    {
        match self.take_in(image) {
            Ok(decoded) => Ok(self.edit(&decoded, pick_transform())),
            Err(e) => Err(e),
        }
    }

    /// Concludes an upload once the caller has tried to persist the
    /// artifact: the fixed acknowledgment if it was written, `StorageFault`
    /// if it was not.
    pub fn acknowledge(persisted: bool) -> (r: Result<StorageResponse, StorageError>)
        ensures
            persisted ==> r is Ok && r->Ok_0.status@ == STATUS_SAVED@,
            !persisted ==> r == Err::<StorageResponse, StorageError>(StorageError::StorageFault),
    {
        if persisted {
            Ok(StorageResponse { status: String::from_str(STATUS_SAVED) })
        } else {
            Err(StorageError::StorageFault)
        }
    }

    /// Where a download of the given request looks: the edited-artifacts root
    /// followed by the requested identifier, verbatim.
    pub fn lookup_path(request: &ImageRequest) -> (path: String)
        ensures
            path@ == edited_path_view(request.image_id@),
    {
        edited_path(request.image_id.as_str())
    }

    /// Handles a download, given what the medium answered for
    /// [`Self::lookup_path`].
    ///
    /// Nothing stored there is `NotFound`, a failing medium `StorageFault`,
    /// stored bytes that do not decode `DecodeFault`. Otherwise the decoded
    /// artifact is encoded again and returned under the lookup path as its
    /// name. A download takes no part in the slot: it needs no service
    /// value, and so no exclusive access.
    pub fn download(request: &ImageRequest, outcome: ReadOutcome) -> (r: Result<Image, StorageError>)
        ensures
            match r {
                Ok(image) => download_result(request.image_id@, outcome.view()) == Ok::<ImageView, StorageError>(image@),
                Err(e) => download_result(request.image_id@, outcome.view()) == Err::<ImageView, StorageError>(e),
            },
    {
        match outcome {
            ReadOutcome::Missing => Err(StorageError::NotFound),
            ReadOutcome::Failed => Err(StorageError::StorageFault),
            ReadOutcome::Found(bytes) => match decode(bytes.as_slice()) {
                Err(e) => Err(e),
                Ok(b) => Ok(Image::new(Self::lookup_path(request), encode(&b))),
            },
        }
    }
}

impl Default for PixBoxStorage {
    /// A service whose slot holds the empty placeholder.
    fn default() -> (s: PixBoxStorage)
        ensures
            s@ == empty_image(),
    {
        PixBoxStorage::new()
    }
}

} // verus!
