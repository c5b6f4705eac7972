use pixbox::codec::{apply, decode, encode, Bitmap};
use pixbox::model::StorageError;
use pixbox::registry::{registry, Transform};

fn grey(width: u32, height: u32, level: u8) -> Bitmap {
    let mut pixels = Vec::new();
    for _ in 0..(width * height) {
        pixels.extend_from_slice(&[level, level, level, 255]);
    }
    Bitmap::new(pixels, width, height).unwrap()
}

#[test]
fn bitmap_new_accepts_four_samples_per_pixel() {
    let b = Bitmap::new(vec![7; 24], 2, 3).unwrap();
    assert_eq!(b.width(), 2);
    assert_eq!(b.height(), 3);
    assert_eq!(b.pixels(), &vec![7u8; 24]);
}

#[test]
fn bitmap_new_rejects_a_zero_dimension() {
    assert!(Bitmap::new(vec![], 0, 0).is_none());
    assert!(Bitmap::new(vec![], 0, 5).is_none());
    assert!(Bitmap::new(vec![], 5, 0).is_none());
}

#[test]
fn bitmap_new_rejects_a_wrong_sample_count() {
    assert!(Bitmap::new(vec![0; 23], 2, 3).is_none());
    assert!(Bitmap::new(vec![0; 25], 2, 3).is_none());
    assert!(Bitmap::new(vec![0; 6], 2, 3).is_none());
}

#[test]
fn bitmap_new_rejects_too_many_pixels() {
    assert!(Bitmap::new(vec![], 65_536, 65_536).is_none());
    assert!(Bitmap::new(vec![], u32::MAX, 1).is_none());
    assert!(Bitmap::new(vec![], u32::MAX, u32::MAX).is_none());
}

#[test]
fn encode_writes_a_png_stream() {
    let bytes = encode(&grey(10, 10, 100));
    assert_eq!(&bytes[..8], &[0x89, b'P', b'N', b'G', 0x0d, 0x0a, 0x1a, 0x0a]);
}

#[test]
fn decode_gives_back_what_encode_was_given() {
    let pixels: Vec<u8> = (0..(4 * 3 * 5)).map(|i| (i * 7 % 256) as u8).collect();
    let bitmap = Bitmap::new(pixels.clone(), 3, 5).unwrap();
    let back = decode(&encode(&bitmap)).unwrap();
    assert_eq!(back.width(), 3);
    assert_eq!(back.height(), 5);
    assert_eq!(back.pixels(), &pixels);
}

#[test]
fn decode_rejects_bytes_that_are_no_image() {
    assert_eq!(decode(b"certainly not an image").err(), Some(StorageError::DecodeFault));
    assert_eq!(decode(&[]).err(), Some(StorageError::DecodeFault));
}

#[test]
fn decode_rejects_a_truncated_stream() {
    let bytes = encode(&grey(10, 10, 100));
    assert_eq!(decode(&bytes[..20]).err(), Some(StorageError::DecodeFault));
}

#[test]
fn oceanic_mixes_a_fifth_of_its_colour_in() {
    let edited = apply(&grey(2, 2, 100), Transform::Oceanic);
    assert_eq!(edited.width(), 2);
    assert_eq!(edited.height(), 2);
    for px in edited.pixels().chunks(4) {
        assert_eq!(px, &[80, 97, 114, 255]);
    }
}

#[test]
fn diamante_mixes_a_tenth_of_its_colour_in() {
    let edited = apply(&grey(1, 1, 100), Transform::Diamante);
    assert_eq!(edited.pixels(), &vec![93, 98, 98, 255]);
}

#[test]
fn radio_offsets_the_grey_level() {
    let edited = apply(&grey(3, 1, 100), Transform::Radio);
    for px in edited.pixels().chunks(4) {
        assert_eq!(px, &[105, 140, 120, 255]);
    }
}

#[test]
fn mauve_saturates_at_white() {
    let edited = apply(&grey(1, 1, 200), Transform::Mauve);
    assert_eq!(edited.pixels(), &vec![255, 240, 255, 255]);
}

#[test]
fn every_transform_keeps_the_dimensions_and_the_alpha() {
    for t in registry() {
        let edited = apply(&grey(4, 3, 100), t);
        assert_eq!(edited.width(), 4);
        assert_eq!(edited.height(), 3);
        assert_eq!(edited.pixels().len(), 48);
        for px in edited.pixels().chunks(4) {
            assert_eq!(px[3], 255);
            assert_ne!(&px[..3], &[100, 100, 100]);
        }
    }
}

#[test]
fn transforms_are_deterministic() {
    for t in registry() {
        let a = apply(&grey(2, 2, 60), t);
        let b = apply(&grey(2, 2, 60), t);
        assert_eq!(a.pixels(), b.pixels());
    }
}
