use chrome_lens_ocr::builder::{build, build_with_uuid};
use chrome_lens_ocr::error::{check_status, LensError};
use chrome_lens_ocr::request::{ImageUpload, PLATFORM_WEB, SURFACE_CHROMIUM};

fn sample_image() -> ImageUpload {
    ImageUpload { bytes: vec![1, 2, 3, 4], width: 640, height: 480 }
}

#[test]
fn build_sets_fixed_sequence_numbers() {
    let m = build(sample_image(), Some("de"));
    assert_eq!(m.request_context.request_id.sequence_id, 1);
    assert_eq!(m.request_context.request_id.image_sequence_id, 1);
}

#[test]
fn build_uses_given_language_tag() {
    let m = build(sample_image(), Some("fr"));
    assert_eq!(m.request_context.client_context.locale_context.language, "fr");
}

#[test]
fn build_defaults_language_to_en() {
    let m = build(sample_image(), None);
    assert_eq!(m.request_context.client_context.locale_context.language, "en");
}

#[test]
fn build_sets_fixed_client_context() {
    let m = build(sample_image(), None);
    assert_eq!(m.request_context.client_context.platform, PLATFORM_WEB);
    assert_eq!(m.request_context.client_context.surface, SURFACE_CHROMIUM);
    assert_eq!(m.request_context.client_context.locale_context.region, "US");
    assert_eq!(m.request_context.client_context.locale_context.time_zone, "America/Los_Angeles");
}

#[test]
fn build_embeds_image_unchanged() {
    let m = build(sample_image(), None);
    assert_eq!(m.image.bytes, vec![1, 2, 3, 4]);
    assert_eq!(m.image.width, 640);
    assert_eq!(m.image.height, 480);
}

#[test]
fn build_with_uuid_keeps_the_given_id() {
    let m = build_with_uuid(sample_image(), None, 0xDEAD_BEEF_1234_5678);
    assert_eq!(m.request_context.request_id.uuid, 0xDEAD_BEEF_1234_5678);
}

#[test]
fn successive_builds_use_distinct_correlation_ids() {
    let mut ids: Vec<u64> = Vec::new();
    for _ in 0..100 {
        let m = build(sample_image(), None);
        ids.push(m.request_context.request_id.uuid);
    }
    ids.sort_unstable();
    for pair in ids.windows(2) {
        assert_ne!(pair[0], pair[1]);
    }
}

#[test]
fn status_2xx_is_success() {
    assert!(check_status(200, "".to_string()).is_ok());
    assert!(check_status(204, "".to_string()).is_ok());
    assert!(check_status(299, "".to_string()).is_ok());
}

#[test]
fn non_2xx_status_becomes_service_error_with_body_verbatim() {
    let r = check_status(404, "not found here".to_string());
    assert_eq!(r, Err(LensError::Service { status: 404, body: "not found here".to_string() }));
    let r = check_status(500, "boom".to_string());
    assert_eq!(r, Err(LensError::Service { status: 500, body: "boom".to_string() }));
    let r = check_status(300, "redirect".to_string());
    assert_eq!(r, Err(LensError::Service { status: 300, body: "redirect".to_string() }));
    let r = check_status(199, "early".to_string());
    assert_eq!(r, Err(LensError::Service { status: 199, body: "early".to_string() }));
}
