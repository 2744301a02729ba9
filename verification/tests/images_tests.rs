use base64::Engine;
use photolib::images::{data_uri_from_bytes, generate_image_id, hex_lower, image_id_of_bytes,
    image_to_base64, photo_from_image, thumbnail_image, ThumbnailFormat};
use sha2::Digest;

#[test]
fn hex_rendering_known_values() {
    assert_eq!(hex_lower(&[]), "");
    assert_eq!(hex_lower(&[0x00, 0xff, 0x1a]), "00ff1a");
    assert_eq!(hex_lower(&[0xde, 0xad, 0xbe, 0xef]), "deadbeef");
}

#[test]
fn image_id_matches_an_independent_digest() {
    let bytes: Vec<u8> = (0u16..300).map(|i| (i % 251) as u8).collect();
    let id = image_id_of_bytes(&bytes);
    let expected: String = sha2::Sha256::digest(&bytes)
        .iter()
        .map(|b| format!("{b:02x}"))
        .collect();
    assert_eq!(id, expected);
    assert_eq!(id.len(), 64);
}

#[test]
fn empty_input_digest_is_the_published_one() {
    // The SHA-256 digest of the empty message is a published constant.
    assert_eq!(
        image_id_of_bytes(&[]),
        "e3b0c44298fc1c149afbf4c8996fb92427ae41e4649b934ca495991b7852b855"
    );
}

#[test]
fn identical_image_content_yields_identical_ids() {
    let img1 = image::DynamicImage::new_rgb8(10, 8);
    let img2 = image::DynamicImage::new_rgb8(10, 8);
    let id1 = generate_image_id(&img1);
    let id2 = generate_image_id(&img2);
    assert_eq!(id1, id2);
    assert_eq!(id1.len(), 64);
    let different = image::DynamicImage::new_rgb8(11, 8);
    assert_eq!(generate_image_id(&different).len(), 64);
}

#[test]
fn data_uri_has_the_documented_shape() {
    assert_eq!(data_uri_from_bytes(b"abc", ThumbnailFormat::Jpeg), "data:image/jpeg;base64,YWJj");
    assert_eq!(data_uri_from_bytes(b"", ThumbnailFormat::Png), "data:image/png;base64,");
    let engine = base64::engine::general_purpose::STANDARD;
    let payload = b"any bytes at all";
    assert_eq!(
        data_uri_from_bytes(payload, ThumbnailFormat::WebP),
        format!("data:image/webp;base64,{}", engine.encode(payload))
    );
}

#[test]
fn encoded_thumbnail_round_trips_through_base64() {
    let img = image::DynamicImage::new_rgb8(16, 16);
    let uri = image_to_base64(&img, ThumbnailFormat::Png).unwrap();
    let prefix = "data:image/png;base64,";
    assert!(uri.starts_with(prefix));
    let engine = base64::engine::general_purpose::STANDARD;
    let bytes = engine.decode(&uri[prefix.len()..]).unwrap();
    let decoded = image::load_from_memory(&bytes).unwrap();
    assert_eq!(decoded.width(), 16);
    assert_eq!(decoded.height(), 16);
}

#[test]
fn photo_from_image_fills_the_photo_fields() {
    let img = image::DynamicImage::new_rgb8(640, 480);
    let photo = photo_from_image("/library/2024/trip.jpg".to_string(), &img).unwrap();
    assert_eq!(photo.id.len(), 64);
    assert_eq!(photo.image_path, "/library/2024/trip.jpg");
    assert_eq!(photo.filename, "trip.jpg");
    assert!(photo.base64.starts_with("data:image/jpeg;base64,"));
    assert!(photo.full_res_attachment.is_none());
    assert!(photo.config.is_none());
    assert!(!photo.favorite);
    assert!(photo.stack_id.is_none());
    assert!(!photo.is_stack_primary);
}

#[test]
fn thumbnail_fits_within_the_bound() {
    let img = image::DynamicImage::new_rgb8(600, 300);
    let thumb = thumbnail_image(&img);
    assert!(thumb.width() <= 300);
    assert!(thumb.height() <= 300);
}
