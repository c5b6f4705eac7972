//! The values that travel between a client and the service, and the faults a
//! request can end in.

use vstd::prelude::*;

verus! {

/// The transport and storage unit: a name and the encoded bytes of an image.
#[derive(Clone, Debug, PartialEq, Eq)]
pub struct Image {
    pub name: String,
    pub data: Vec<u8>,
}

/// An [`Image`] as a mathematical value.
pub struct ImageView {
    pub name: Seq<char>,
    pub data: Seq<u8>,
}

impl View for Image {
    type V = ImageView;

    open spec fn view(&self) -> ImageView {
        ImageView { name: self.name@, data: self.data@ }
    }
}

/// The placeholder a fresh slot holds: no name, no data.
pub open spec fn empty_image() -> ImageView {
    ImageView { name: Seq::empty(), data: Seq::empty() }
}

impl Image {
    /// An image with the given name and payload.
    pub fn new(name: String, data: Vec<u8>) -> (r: Image)
        ensures
            r@ == (ImageView { name: name@, data: data@ }),
    {
        Image { name, data }
    }

    /// The empty placeholder.
    pub fn empty() -> (r: Image)
        ensures
            r@ == empty_image(),
    {
        Image { name: String::new(), data: Vec::new() }
    }

    /// Whether the payload holds no bytes at all; such an image is never
    /// accepted.
    pub fn is_empty(&self) -> (b: bool)
        ensures
            b == (self@.data.len() == 0),
    {
        self.data.len() == 0
    }
}

/// Asks for a persisted artifact by its key.
#[derive(Clone, Debug, PartialEq, Eq)]
pub struct ImageRequest {
    pub image_id: String,
}

/// Acknowledges an upload.
#[derive(Clone, Debug, PartialEq, Eq)]
pub struct StorageResponse {
    pub status: String,
}

/// What a request can fail with.
#[derive(Clone, Copy, Debug, PartialEq, Eq, Structural)]
pub enum StorageError {
    /// The caller supplied an empty payload.
    InvalidInput,
    /// The payload, or the stored artifact, is not an image the codec accepts.
    DecodeFault,
    /// No artifact is persisted under the requested key.
    NotFound,
    /// The storage medium failed for a reason unrelated to the data.
    StorageFault,
}

/// The class under which a fault is reported to the remote caller.
#[derive(Clone, Copy, Debug, PartialEq, Eq, Structural)]
pub enum StatusClass {
    InvalidArgument,
    NotFound,
    Internal,
}

impl StorageError {
    /// The reporting class of each fault.
    pub open spec fn class_of(self) -> StatusClass {
        match self {
            StorageError::InvalidInput => StatusClass::InvalidArgument,
            StorageError::NotFound => StatusClass::NotFound,
            StorageError::DecodeFault => StatusClass::Internal,
            StorageError::StorageFault => StatusClass::Internal,
        }
    }

    /// The fixed, human-readable message of each fault.
    pub open spec fn message_view(self) -> Seq<char> {
        match self {
            StorageError::InvalidInput => "provided image was invalid"@,
            StorageError::DecodeFault => "can't open image from raw data"@,
            StorageError::NotFound => "can't open image"@,
            StorageError::StorageFault => "failed to access image storage"@,
        }
    }

    /// The class under which this fault is reported.
    pub fn class(self) -> (c: StatusClass)
        ensures
            c == self.class_of(),
    {
        match self {
            StorageError::InvalidInput => StatusClass::InvalidArgument,
            StorageError::NotFound => StatusClass::NotFound,
            StorageError::DecodeFault => StatusClass::Internal,
            StorageError::StorageFault => StatusClass::Internal,
        }
    }

    /// The message reported with this fault.
    pub fn message(self) -> (m: &'static str)
        ensures
            m@ == self.message_view(),
    {
        match self {
            StorageError::InvalidInput => "provided image was invalid",
            StorageError::DecodeFault => "can't open image from raw data",
            StorageError::NotFound => "can't open image",
            StorageError::StorageFault => "failed to access image storage",
        }
    }

    /// Whether sending the same request again may succeed: only a fault of
    /// the storage medium may be transient.
    pub fn is_transient(self) -> (b: bool)
        ensures
            b == (self == StorageError::StorageFault),
    {
        match self {
            StorageError::StorageFault => true,
            _ => false,
        }
    }
}

} // verus!
