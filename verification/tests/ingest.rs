use jdx_tools::dataset::{ClassEntry, Dataset, Header, PushError, Version};
use jdx_tools::ingest::{ClassDecision, IngestError, Ingestion, MAX_CLASSES};
use jdx_tools::text::{has_jdx_extension, is_hidden_name};

use image::{DynamicImage, GrayImage, ImageFormat, RgbImage};
use std::io::Cursor;

fn gray_png(width: u32, height: u32) -> Vec<u8> {
    let img = GrayImage::from_pixel(width, height, image::Luma([128u8]));
    let mut buf: Vec<u8> = Vec::new();
    DynamicImage::ImageLuma8(img)
        .write_to(&mut Cursor::new(&mut buf), ImageFormat::Png)
        .unwrap();
    buf
}

fn rgb_png(width: u32, height: u32) -> Vec<u8> {
    let img = RgbImage::from_pixel(width, height, image::Rgb([1u8, 2u8, 3u8]));
    let mut buf: Vec<u8> = Vec::new();
    DynamicImage::ImageRgb8(img)
        .write_to(&mut Cursor::new(&mut buf), ImageFormat::Png)
        .unwrap();
    buf
}

fn gray16_png(width: u32, height: u32) -> Vec<u8> {
    let img = image::ImageBuffer::from_pixel(width, height, image::Luma([1000u16]));
    let mut buf: Vec<u8> = Vec::new();
    DynamicImage::ImageLuma16(img)
        .write_to(&mut Cursor::new(&mut buf), ImageFormat::Png)
        .unwrap();
    buf
}

fn empty_header(width: u16, height: u16, bit_depth: u8) -> Header {
    Header {
        version: Version::V0,
        image_width: width,
        image_height: height,
        bit_depth,
        image_count: 0,
        classes: Vec::new(),
    }
}

#[test]
fn hidden_names_are_recognized() {
    assert!(is_hidden_name(".DS_Store"));
    assert!(is_hidden_name("."));
    assert!(!is_hidden_name("cat"));
    assert!(!is_hidden_name(""));
}

#[test]
fn hidden_class_directories_are_skipped() {
    let mut ing = Ingestion::new();
    let d = ing.begin_class(&".hidden".to_string());
    assert!(matches!(d, ClassDecision::Skip));
    assert_eq!(ing.class_count, 0);
    assert!(ing.dataset.is_none());
}

#[test]
fn class_count_bound_is_fatal_past_the_limit() {
    let mut ing = Ingestion::new();
    for i in 0..MAX_CLASSES {
        let d = ing.begin_class(&format!("class{}", i));
        assert!(matches!(d, ClassDecision::Ingest));
    }
    assert_eq!(ing.class_count, MAX_CLASSES);
    let d = ing.begin_class(&"one_too_many".to_string());
    assert!(matches!(d, ClassDecision::TooManyClasses));
    assert_eq!(ing.class_count, MAX_CLASSES);
}

#[test]
fn header_comes_from_first_validated_image() {
    let mut ing = Ingestion::new();
    let r = ing.ingest_decoded(4, 4, 8, vec![0u8; 16], &"cat".to_string());
    assert_eq!(r, Ok(()));
    let ds = ing.dataset.as_ref().expect("dataset after first image");
    assert_eq!(ds.header.image_width, 4);
    assert_eq!(ds.header.image_height, 4);
    assert_eq!(ds.header.bit_depth, 8);
    assert_eq!(ds.header.image_count, 1);
    assert!(matches!(ds.header.version, Version::V0));
}

#[test]
fn oversized_dimensions_are_fatal() {
    let mut ing = Ingestion::new();
    let r = ing.ingest_decoded(70000, 4, 8, vec![0u8; 16], &"cat".to_string());
    assert_eq!(r, Err(IngestError::DimensionsTooBig));
    assert!(ing.dataset.is_none());
    let r = ing.ingest_decoded(4, 70000, 8, vec![0u8; 16], &"cat".to_string());
    assert_eq!(r, Err(IngestError::DimensionsTooBig));
    let r = ing.ingest_decoded(4, 4, 300, vec![0u8; 16], &"cat".to_string());
    assert_eq!(r, Err(IngestError::DimensionsTooBig));
}

#[test]
fn unsupported_bit_depth_is_fatal_and_named() {
    let mut ing = Ingestion::new();
    let r = ing.ingest_decoded(4, 4, 16, vec![0u8; 32], &"cat".to_string());
    assert_eq!(r, Err(IngestError::UnsupportedBitDepth(16)));
    assert!(ing.dataset.is_none());
}

#[test]
fn mismatched_image_aborts_and_leaves_dataset_unchanged() {
    let mut ing = Ingestion::new();
    assert_eq!(ing.ingest_decoded(4, 4, 8, vec![0u8; 16], &"cat".to_string()), Ok(()));
    let r = ing.ingest_decoded(5, 4, 8, vec![0u8; 20], &"cat".to_string());
    assert_eq!(r, Err(IngestError::HeaderMismatch));
    let r = ing.ingest_decoded(4, 4, 24, vec![0u8; 48], &"cat".to_string());
    assert_eq!(r, Err(IngestError::HeaderMismatch));
    let ds = ing.dataset.as_ref().unwrap();
    assert_eq!(ds.header.image_count, 1);
    assert_eq!(ds.header.classes.len(), 1);
    assert_eq!(ds.images.len(), 1);
}

#[test]
fn two_classes_end_to_end() {
    let mut ing = Ingestion::new();
    assert!(matches!(ing.begin_class(&"cat".to_string()), ClassDecision::Ingest));
    assert_eq!(ing.ingest_decoded(4, 4, 8, vec![7u8; 16], &"cat".to_string()), Ok(()));
    assert!(matches!(ing.begin_class(&"dog".to_string()), ClassDecision::Ingest));
    assert_eq!(ing.ingest_decoded(4, 4, 8, vec![9u8; 16], &"dog".to_string()), Ok(()));
    let ds = ing.finish().expect("completed dataset");
    assert_eq!(ds.header.image_count, 2);
    assert_eq!(ds.header.bit_depth, 8);
    assert_eq!(ds.header.image_width, 4);
    assert_eq!(ds.header.image_height, 4);
    assert_eq!(ds.header.classes.len(), 2);
    assert_eq!(ds.header.classes[0].label, "cat");
    assert_eq!(ds.header.classes[0].image_count, 1);
    assert_eq!(ds.header.classes[1].label, "dog");
    assert_eq!(ds.header.classes[1].image_count, 1);
    assert_eq!(ds.images.len(), 2);
    assert_eq!(ds.images[0].class_index, 0);
    assert_eq!(ds.images[1].class_index, 1);
    assert_eq!(ds.images[0].pixels, vec![7u8; 16]);
    assert_eq!(ds.images[1].pixels, vec![9u8; 16]);
}

#[test]
fn no_validated_image_means_no_dataset() {
    let ing = Ingestion::new();
    let r = ing.finish();
    assert!(matches!(r, Err(IngestError::NoImages)));
}

#[test]
fn decoding_a_real_grayscale_png() {
    let bytes = gray_png(4, 4);
    let mut ing = Ingestion::new();
    let r = ing.ingest_image(&bytes, &"cat".to_string());
    assert_eq!(r, Ok(()));
    let ds = ing.dataset.as_ref().unwrap();
    assert_eq!(ds.header.image_width, 4);
    assert_eq!(ds.header.image_height, 4);
    assert_eq!(ds.header.bit_depth, 8);
    assert_eq!(ds.images[0].pixels.len(), 16);
}

#[test]
fn decoding_a_real_rgb_png_gives_depth_24() {
    let bytes = rgb_png(3, 2);
    let mut ing = Ingestion::new();
    let r = ing.ingest_image(&bytes, &"dog".to_string());
    assert_eq!(r, Ok(()));
    let ds = ing.dataset.as_ref().unwrap();
    assert_eq!(ds.header.image_width, 3);
    assert_eq!(ds.header.image_height, 2);
    assert_eq!(ds.header.bit_depth, 24);
    assert_eq!(ds.images[0].pixels.len(), 18);
}

#[test]
fn sixteen_bit_png_has_unsupported_depth() {
    let bytes = gray16_png(2, 2);
    let mut ing = Ingestion::new();
    let r = ing.ingest_image(&bytes, &"cat".to_string());
    assert_eq!(r, Err(IngestError::UnsupportedBitDepth(16)));
    assert!(ing.dataset.is_none());
}

#[test]
fn undecodable_bytes_are_fatal() {
    let mut ing = Ingestion::new();
    let r = ing.ingest_image(&vec![1u8, 2, 3, 4, 5], &"cat".to_string());
    assert_eq!(r, Err(IngestError::CannotDecode));
    assert!(ing.dataset.is_none());
}

#[test]
fn push_rejects_only_mismatched_candidates() {
    let mut ds = Dataset::with_header(empty_header(2, 2, 8));
    assert_eq!(ds.push(vec![0u8; 4], 2, 2, 8, &"a".to_string()), Ok(()));
    assert_eq!(
        ds.push(vec![0u8; 4], 3, 2, 8, &"a".to_string()),
        Err(PushError::HeaderMismatch)
    );
    assert_eq!(
        ds.push(vec![0u8; 4], 2, 2, 24, &"a".to_string()),
        Err(PushError::HeaderMismatch)
    );
    assert_eq!(ds.header.image_count, 1);
}

#[test]
fn pushing_same_label_grows_its_count() {
    let mut ds = Dataset::with_header(empty_header(2, 2, 8));
    assert_eq!(ds.push(vec![1u8; 4], 2, 2, 8, &"a".to_string()), Ok(()));
    assert_eq!(ds.push(vec![2u8; 4], 2, 2, 8, &"b".to_string()), Ok(()));
    assert_eq!(ds.push(vec![3u8; 4], 2, 2, 8, &"a".to_string()), Ok(()));
    assert_eq!(ds.header.image_count, 3);
    assert_eq!(ds.header.classes.len(), 2);
    assert_eq!(ds.header.classes[0].label, "a");
    assert_eq!(ds.header.classes[0].image_count, 2);
    assert_eq!(ds.header.classes[1].label, "b");
    assert_eq!(ds.header.classes[1].image_count, 1);
    assert_eq!(ds.images[2].class_index, 0);
}

#[test]
fn class_entries_can_be_built_directly() {
    let e = ClassEntry { label: "cat".to_string(), image_count: 3 };
    assert_eq!(e.label, "cat");
    assert_eq!(e.image_count, 3);
}

#[test]
fn serialization_has_the_exact_byte_layout() {
    let mut ds = Dataset::with_header(empty_header(2, 2, 8));
    assert_eq!(ds.push(vec![9u8, 8, 7, 6], 2, 2, 8, &"a".to_string()), Ok(()));
    let bytes = ds.serialize();
    let mut expected: Vec<u8> = Vec::new();
    expected.extend_from_slice(&[74, 68, 88, 48]); // "JDX0"
    expected.extend_from_slice(&[2, 0]); // width
    expected.extend_from_slice(&[2, 0]); // height
    expected.push(8); // bit depth
    expected.extend_from_slice(&1u64.to_le_bytes()); // image count
    expected.extend_from_slice(&1u64.to_le_bytes()); // class count
    expected.extend_from_slice(&1u64.to_le_bytes()); // label char count
    expected.extend_from_slice(&('a' as u32).to_le_bytes()); // label chars
    expected.extend_from_slice(&1u64.to_le_bytes()); // class image count
    expected.extend_from_slice(&0u64.to_le_bytes()); // class index
    expected.extend_from_slice(&4u64.to_le_bytes()); // payload length
    expected.extend_from_slice(&[9, 8, 7, 6]); // payload
    assert_eq!(bytes, expected);
}

#[test]
fn serialization_after_decoding_a_real_png() {
    let mut ing = Ingestion::new();
    assert_eq!(ing.ingest_image(&gray_png(2, 2), &"cat".to_string()), Ok(()));
    let ds = ing.finish().unwrap();
    let bytes = ds.serialize();
    assert_eq!(&bytes[0..4], b"JDX0");
    assert_eq!(&bytes[4..6], &[2, 0]); // width
    assert_eq!(&bytes[6..8], &[2, 0]); // height
    assert_eq!(bytes[8], 8); // bit depth
    assert_eq!(&bytes[9..17], &1u64.to_le_bytes()); // image count
    assert_eq!(&bytes[bytes.len() - 4..], &[128, 128, 128, 128]); // pixels
}

#[test]
fn jdx_extension_detection() {
    assert!(has_jdx_extension("out.jdx"));
    assert!(has_jdx_extension("dir/sub/archive.tar.jdx"));
    assert!(!has_jdx_extension("out.bin"));
    assert!(!has_jdx_extension("out"));
    assert!(!has_jdx_extension(".jdx"));
    assert!(!has_jdx_extension("dir.jdx/out"));
    assert!(!has_jdx_extension("dir/.jdx"));
}
