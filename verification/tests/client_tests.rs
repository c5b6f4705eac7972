use pixbox::client::{incoming_file, is_saved, outgoing_image, SavedFile};
use pixbox::codec::{decode, encode, Bitmap};
use pixbox::model::{Image, StorageError, StorageResponse};
use pixbox::storage::PixBoxStorage;

fn sample() -> (Vec<u8>, Vec<u8>) {
    let pixels = vec![10, 20, 30, 255, 40, 50, 60, 255, 70, 80, 90, 255];
    let bytes = encode(&Bitmap::new(pixels.clone(), 3, 1).unwrap());
    (pixels, bytes)
}

#[test]
fn outgoing_image_is_named_by_the_last_segment() {
    let (pixels, bytes) = sample();
    let image = outgoing_image("data/input/cat.png", &bytes).unwrap();
    assert_eq!(image.name, "cat.png");
    let back = decode(&image.data).unwrap();
    assert_eq!((back.width(), back.height()), (3, 1));
    assert_eq!(back.pixels(), &pixels);
}

#[test]
fn outgoing_image_of_a_plain_name_keeps_the_name() {
    let (_, bytes) = sample();
    assert_eq!(outgoing_image("cat.png", &bytes).unwrap().name, "cat.png");
}

#[test]
fn outgoing_image_rejects_a_file_that_is_no_image() {
    assert_eq!(outgoing_image("data/notes.txt", b"hello"), Err(StorageError::DecodeFault));
    assert_eq!(outgoing_image("data/empty.png", &[]), Err(StorageError::DecodeFault));
}

#[test]
fn incoming_file_goes_under_the_output_root() {
    let (pixels, bytes) = sample();
    let image = Image::new("./images/edited/oceanic-cat.png".to_string(), bytes);
    let file = incoming_file("oceanic-cat.png", &image).unwrap();
    assert_eq!(file.path, "./data/test-output/oceanic-cat.png");
    assert_eq!(decode(&file.data).unwrap().pixels(), &pixels);
    assert_eq!(file, SavedFile { path: file.path.clone(), data: encode(&Bitmap::new(pixels, 3, 1).unwrap()) });
}

#[test]
fn incoming_file_rejects_an_image_that_does_not_decode() {
    let image = Image::new("./images/edited/oceanic-cat.png".to_string(), vec![0, 1, 2]);
    assert_eq!(incoming_file("oceanic-cat.png", &image), Err(StorageError::DecodeFault));
}

#[test]
fn is_saved_accepts_the_fixed_status_only() {
    assert!(is_saved(&PixBoxStorage::acknowledge(true).unwrap()));
    assert!(is_saved(&StorageResponse { status: "Image saved".to_string() }));
    assert!(!is_saved(&StorageResponse { status: "image saved".to_string() }));
    assert!(!is_saved(&StorageResponse { status: String::new() }));
}
