use libraw_rs::context::init_result;
use libraw_rs::process::{float_data_present, mem_image_result, mem_thumb_result, thumbnail_is_jpeg};
use libraw_rs::utils::{c_text_or, camera_list_len};
use libraw_rs::{Error, ImageType, ProcessedImage, ProgressAction};

fn image(format: i32) -> ProcessedImage {
    ProcessedImage { format, height: 2, width: 3, colors: 3, bits: 8, data: vec![1, 2, 3] }
}

#[test]
fn processed_image_reads_its_fields() {
    let img = image(1);
    assert_eq!(img.image_type(), ImageType::Jpeg);
    assert_eq!(img.data(), &[1, 2, 3]);
    assert_eq!(img.width(), 3);
    assert_eq!(img.height(), 2);
    assert_eq!(img.colors(), 3);
    assert_eq!(img.bits(), 8);
    assert_eq!(image(2).image_type(), ImageType::Bitmap);
    assert_eq!(image(0).image_type(), ImageType::Bitmap);
}

#[test]
fn mem_image_results() {
    assert!(mem_image_result(Some(image(2)), 0, String::new()).is_ok());
    assert!(mem_image_result(Some(image(2)), -4, String::new()).is_ok());
    match mem_image_result(None, 0, String::new()) {
        Err(Error::Unknown { code, msg }) => {
            assert_eq!(code, -1);
            assert_eq!(msg, "make_mem_image returned null");
        }
        _ => panic!("expected an unknown error"),
    }
    assert!(matches!(mem_image_result(None, -4, String::new()), Err(Error::OutOfOrderCall)));
    match mem_thumb_result(None, 0, String::new()) {
        Err(Error::Unknown { code, msg }) => {
            assert_eq!(code, -1);
            assert_eq!(msg, "make_mem_thumb returned null");
        }
        _ => panic!("expected an unknown error"),
    }
    assert!(matches!(mem_thumb_result(None, -5, String::new()), Err(Error::NoThumbnail)));
}

#[test]
fn context_creation() {
    assert!(init_result(true).is_ok());
    assert!(matches!(init_result(false), Err(Error::OutOfMemory)));
}

#[test]
fn thumbnail_and_float_flags() {
    assert!(thumbnail_is_jpeg(1));
    assert!(!thumbnail_is_jpeg(2));
    assert!(!float_data_present(false, false, false));
    assert!(float_data_present(false, true, false));
    assert!(float_data_present(false, false, true));
}

#[test]
fn progress_action_codes() {
    assert_eq!(ProgressAction::Continue.code(), 0);
    assert_eq!(ProgressAction::Cancel.code(), 1);
}

#[test]
fn c_text_fallbacks() {
    assert_eq!(c_text_or(Some(b"0.22.1-Release".as_slice()), "unknown"), "0.22.1-Release");
    assert_eq!(c_text_or(None, "unknown"), "unknown");
    assert_eq!(c_text_or(Some(&[0xc3, 0x28][..]), "unknown"), "unknown");
    assert_eq!(c_text_or(None, ""), "");
}

#[test]
fn camera_list_length() {
    assert_eq!(camera_list_len(true, 1200), 1201);
    assert_eq!(camera_list_len(true, 0), 1);
    assert_eq!(camera_list_len(false, 1200), 0);
    assert_eq!(camera_list_len(true, -1), 0);
    assert_eq!(camera_list_len(true, i32::MAX), i32::MAX as usize + 1);
}
