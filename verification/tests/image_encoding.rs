use rustycap::error::SolverError;
use rustycap::image::{encode_image, image_type_to_string, make_data_uri, ImageFormat};
use rustycap::tasks::classification::FunCaptchaClassificationTask;
use rustycap::tasks::Task;

const PNG_HEADER: [u8; 12] = [
    0x89, 0x50, 0x4E, 0x47, 0x0D, 0x0A, 0x1A, 0x0A, 0x00, 0x00, 0x00, 0x0D,
];

#[test]
fn image_type_names() {
    assert_eq!(image_type_to_string(ImageFormat::Png), "png");
    assert_eq!(image_type_to_string(ImageFormat::Jpeg), "jpeg");
    assert_eq!(image_type_to_string(ImageFormat::Gif), "gif");
    assert_eq!(image_type_to_string(ImageFormat::Webp), "webp");
}

#[test]
fn make_data_uri_wraps_payload() {
    assert_eq!(make_data_uri(ImageFormat::Jpeg, "abc"), "data:image/jpeg;base64,abc");
}

#[test]
fn png_bytes_encode_to_png_data_uri() {
    let encoded = encode_image(&PNG_HEADER).expect("png header must be recognized");
    // exact base64 of the twelve header bytes
    assert_eq!(encoded, "data:image/png;base64,iVBORw0KGgoAAAAN");
    assert!(encoded.starts_with("data:image/png;base64,"));
}

#[test]
fn gif_bytes_encode_to_gif_data_uri() {
    let bytes = *b"GIF89a\x01\x00\x01\x00\x00\x00";
    let encoded = encode_image(&bytes).expect("gif header must be recognized");
    assert!(encoded.starts_with("data:image/gif;base64,"));
}

#[test]
fn unrecognized_bytes_fail_with_unknown_image_format() {
    let bytes = [0xFFu8; 16];
    assert_eq!(encode_image(&bytes), Err(SolverError::UnknownImageFormat));
}

#[test]
fn classification_from_image_encodes_and_keeps_question() {
    let task = FunCaptchaClassificationTask::from_image(&PNG_HEADER, "which tile?".to_string())
        .expect("png header must be recognized");
    assert_eq!(task.image, "data:image/png;base64,iVBORw0KGgoAAAAN");
    assert_eq!(task.question, "which tile?");
    let doc = task.serialize();
    assert_eq!(
        doc.get("image").map(String::as_str),
        Some("data:image/png;base64,iVBORw0KGgoAAAAN")
    );
}

#[test]
fn classification_from_image_rejects_unknown_format() {
    let bytes = [0u8; 12];
    let r = FunCaptchaClassificationTask::from_image(&bytes, "q".to_string());
    assert_eq!(r, Err(SolverError::UnknownImageFormat));
}
