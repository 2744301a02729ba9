use photolib::admission::{admits_full_res, attachment_user_data, should_stage_full_res,
    FULL_RES_ATTACHMENT_MAX_BYTES};
use photolib::paths::{file_name_of, guess_mime_type, is_supported_image_path};

#[test]
fn admission_boundary_is_exactly_two_mebibytes() {
    assert_eq!(FULL_RES_ATTACHMENT_MAX_BYTES, 2_097_152);
    assert!(admits_full_res(2_097_152));
    assert!(!admits_full_res(2_097_153));
    assert!(admits_full_res(0));
}

#[test]
fn filesystem_error_degrades_to_no_attachment() {
    assert!(should_stage_full_res(Some(1000)));
    assert!(!should_stage_full_res(Some(3_000_000)));
    assert!(!should_stage_full_res(None));
}

#[test]
fn attachment_metadata_names_the_file_and_its_mime_type() {
    let data = attachment_user_data("/photos/holiday/IMG_0042.JPG");
    assert_eq!(data.len(), 2);
    assert_eq!(data[0], ("name".to_string(), "IMG_0042.JPG".to_string()));
    assert_eq!(data[1], ("mime_type".to_string(), "image/jpeg".to_string()));
}

#[test]
fn attachment_metadata_without_known_mime_type() {
    let data = attachment_user_data("/photos/raw/shot.cr2");
    assert_eq!(data.len(), 1);
    assert_eq!(data[0], ("name".to_string(), "shot.cr2".to_string()));
}

#[test]
fn file_name_is_the_part_after_the_last_separator() {
    assert_eq!(file_name_of("/a/b/c.png"), "c.png");
    assert_eq!(file_name_of("plain.jpg"), "plain.jpg");
    assert_eq!(file_name_of("/ends/with/"), "/ends/with/");
}

#[test]
fn mime_table_matches_extensions_case_insensitively() {
    assert_eq!(guess_mime_type("x.jpg"), Some("image/jpeg".to_string()));
    assert_eq!(guess_mime_type("x.JPEG"), Some("image/jpeg".to_string()));
    assert_eq!(guess_mime_type("x.png"), Some("image/png".to_string()));
    assert_eq!(guess_mime_type("x.gif"), Some("image/gif".to_string()));
    assert_eq!(guess_mime_type("x.webp"), Some("image/webp".to_string()));
    assert_eq!(guess_mime_type("x.tiff"), Some("image/tiff".to_string()));
    assert_eq!(guess_mime_type("x.TIF"), Some("image/tiff".to_string()));
    assert_eq!(guess_mime_type("x.heic"), Some("image/heic".to_string()));
    assert_eq!(guess_mime_type("x.bmp"), None);
    assert_eq!(guess_mime_type("noextension"), None);
    assert_eq!(guess_mime_type("/dotted.dir/noextension"), None);
    assert_eq!(guess_mime_type(".hidden"), None);
}

#[test]
fn folder_scan_takes_exactly_the_supported_extensions() {
    assert!(is_supported_image_path("/p/a.jpg"));
    assert!(is_supported_image_path("/p/a.JPEG"));
    assert!(is_supported_image_path("/p/a.png"));
    assert!(is_supported_image_path("/p/a.heic"));
    assert!(is_supported_image_path("/p/a.webp"));
    assert!(is_supported_image_path("/p/a.tiff"));
    assert!(!is_supported_image_path("/p/a.gif"));
    assert!(!is_supported_image_path("/p/a.tif"));
    assert!(!is_supported_image_path("/p/a.txt"));
    assert!(!is_supported_image_path("/p/noext"));
}
