use pixbox::model::{Image, StatusClass, StorageError};

#[test]
fn image_new_keeps_name_and_data() {
    let image = Image::new("cat.png".to_string(), vec![1, 2, 3]);
    assert_eq!(image.name, "cat.png");
    assert_eq!(image.data, vec![1, 2, 3]);
    assert!(!image.is_empty());
}

#[test]
fn empty_image_has_no_name_and_no_data() {
    let image = Image::empty();
    assert_eq!(image.name, "");
    assert!(image.data.is_empty());
    assert!(image.is_empty());
}

#[test]
fn named_image_without_data_is_empty() {
    assert!(Image::new("x.png".to_string(), vec![]).is_empty());
}

#[test]
fn invalid_input_is_an_invalid_argument() {
    assert_eq!(StorageError::InvalidInput.class(), StatusClass::InvalidArgument);
    assert_eq!(StorageError::InvalidInput.message(), "provided image was invalid");
    assert!(!StorageError::InvalidInput.is_transient());
}

#[test]
fn decode_fault_is_internal() {
    assert_eq!(StorageError::DecodeFault.class(), StatusClass::Internal);
    assert_eq!(StorageError::DecodeFault.message(), "can't open image from raw data");
    assert!(!StorageError::DecodeFault.is_transient());
}

#[test]
fn not_found_is_not_found() {
    assert_eq!(StorageError::NotFound.class(), StatusClass::NotFound);
    assert_eq!(StorageError::NotFound.message(), "can't open image");
    assert!(!StorageError::NotFound.is_transient());
}

#[test]
fn storage_fault_is_internal_and_transient() {
    assert_eq!(StorageError::StorageFault.class(), StatusClass::Internal);
    assert_eq!(StorageError::StorageFault.message(), "failed to access image storage");
    assert!(StorageError::StorageFault.is_transient());
}
