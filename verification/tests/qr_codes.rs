use base64::Engine;
use herb_backend::document::{herb_from_document, herb_to_json};
use herb_backend::qr::{
    bitmap_to_png, generate_qr_base64, generate_qr_data_uri, generate_qr_png_bytes,
    png_to_data_uri, qr_payload_of, qr_png_of, EncodingError,
};
use herb_backend::record::Herb;
use herb_backend::time::Timestamp;

fn herb() -> Herb {
    Herb {
        id: "herb_abc123".to_string(),
        name: "Tulsi".to_string(),
        farmer: "Asha".to_string(),
        location: "Kerala".to_string(),
        created_at: Timestamp::new(1_431_648_000, 0).unwrap(),
    }
}

fn read_code(png: &[u8]) -> String {
    let picture = image::load_from_memory(png).unwrap().to_luma8();
    let (w, h) = (picture.width() as usize, picture.height() as usize);
    let mut prepared = rqrr::PreparedImage::prepare_from_greyscale(w, h, |x, y| {
        picture.get_pixel(x as u32, y as u32).0[0]
    });
    let grids = prepared.detect_grids();
    assert_eq!(grids.len(), 1);
    let (_, content) = grids[0].decode().unwrap();
    content
}

#[test]
fn the_code_says_the_public_address_where_a_base_is_set() {
    let h = herb();
    assert_eq!(
        qr_payload_of(&h, Some("https://herbs.example.com")),
        "https://herbs.example.com/p/herb_abc123"
    );
    assert_eq!(
        qr_payload_of(&h, Some("https://herbs.example.com/")),
        "https://herbs.example.com/p/herb_abc123"
    );
    assert_eq!(
        qr_payload_of(&h, Some("https://herbs.example.com/shop//")),
        "https://herbs.example.com/shop/p/herb_abc123"
    );
    assert_eq!(qr_payload_of(&h, Some("")), "/p/herb_abc123");
}

#[test]
fn the_code_says_the_record_where_no_base_is_set() {
    let h = herb();
    assert_eq!(qr_payload_of(&h, None), herb_to_json(&h));
    assert_eq!(
        qr_payload_of(&h, None),
        "{\"id\":\"herb_abc123\",\"name\":\"Tulsi\",\"farmer\":\"Asha\",\"location\":\"Kerala\",\"created_at\":\"2015-05-15T00:00:00Z\"}"
    );
}

#[test]
fn the_image_is_a_png_file() {
    let png = generate_qr_png_bytes(&herb(), Some("https://herbs.example.com")).unwrap();
    assert_eq!(&png[..8], &[0x89, b'P', b'N', b'G', 0x0D, 0x0A, 0x1A, 0x0A]);
    let picture = image::load_from_memory(&png).unwrap();
    assert_eq!(picture.color(), image::ColorType::L8);
    assert_eq!(picture.width(), picture.height());
    assert_eq!(picture.width() % 8, 0);
    let grey = picture.to_luma8();
    assert!(grey.pixels().all(|p| p.0[0] == 0 || p.0[0] == 255));
    assert_eq!(grey.get_pixel(0, 0).0[0], 255);
}

#[test]
fn the_image_is_the_one_that_the_code_renders() {
    let h = herb();
    let payload = qr_payload_of(&h, None);
    let code = qrcode::QrCode::new(&payload).unwrap();
    let expected = code.render::<image::Luma<u8>>().build();
    let png = generate_qr_png_bytes(&h, None).unwrap();
    let got = image::load_from_memory(&png).unwrap().to_luma8();
    assert_eq!(got.dimensions(), expected.dimensions());
    assert_eq!(got.dimensions(), (((code.width() + 8) * 8) as u32, ((code.width() + 8) * 8) as u32));
    assert_eq!(got.into_raw(), expected.into_raw());
}

#[test]
fn the_image_is_the_same_each_time() {
    let h = herb();
    assert_eq!(generate_qr_png_bytes(&h, None), generate_qr_png_bytes(&h, None));
    assert_eq!(
        generate_qr_png_bytes(&h, Some("https://a.example")),
        generate_qr_png_bytes(&h, Some("https://a.example/"))
    );
    assert_ne!(
        generate_qr_png_bytes(&h, Some("https://a.example")),
        generate_qr_png_bytes(&h, Some("https://b.example"))
    );
}

#[test]
fn reading_the_code_gives_the_public_address() {
    let png = generate_qr_png_bytes(&herb(), Some("https://herbs.example.com/")).unwrap();
    assert_eq!(read_code(&png), "https://herbs.example.com/p/herb_abc123");
}

#[test]
fn reading_the_code_gives_the_record() {
    let h = herb();
    let png = generate_qr_png_bytes(&h, None).unwrap();
    let content = read_code(&png);
    assert_eq!(content, herb_to_json(&h));
    assert_eq!(herb_from_document(&content), Some(h));
}

#[test]
fn reading_the_code_of_a_text() {
    let png = qr_png_of("herb_abc123").unwrap();
    assert_eq!(read_code(&png), "herb_abc123");
    assert_eq!(
        image::load_from_memory(&png).unwrap().to_luma8().dimensions(),
        ((21 + 8) * 8, (21 + 8) * 8)
    );
}

#[test]
fn the_image_in_base64() {
    let h = herb();
    let png = generate_qr_png_bytes(&h, None).unwrap();
    let text = generate_qr_base64(&h, None).unwrap();
    assert_eq!(text, base64::engine::general_purpose::STANDARD.encode(&png));
    assert_eq!(base64::engine::general_purpose::STANDARD.decode(&text).unwrap(), png);
    assert!(text.starts_with("iVBORw0KGgo"));
    assert_eq!(text.len() % 4, 0);
    assert_eq!(text.len(), (png.len() + 2) / 3 * 4);
}

#[test]
fn the_image_as_a_data_uri() {
    let h = herb();
    let text = generate_qr_base64(&h, Some("https://herbs.example.com")).unwrap();
    let uri = generate_qr_data_uri(&h, Some("https://herbs.example.com")).unwrap();
    assert_eq!(uri, format!("data:image/png;base64,{}", text));
}

#[test]
fn a_record_too_large_for_a_code() {
    let mut h = herb();
    h.location = "x".repeat(4000);
    assert_eq!(generate_qr_png_bytes(&h, None), Err(EncodingError::PayloadTooLarge));
    assert_eq!(generate_qr_base64(&h, None), Err(EncodingError::PayloadTooLarge));
    assert_eq!(generate_qr_data_uri(&h, None), Err(EncodingError::PayloadTooLarge));
    assert!(generate_qr_png_bytes(&h, Some("https://herbs.example.com")).is_ok());
    assert_eq!(qr_png_of(&"x".repeat(2332)), Err(EncodingError::PayloadTooLarge));
    assert!(qr_png_of(&"x".repeat(2331)).is_ok());
}

#[test]
fn a_bitmap_as_a_png_file() {
    let pixels = vec![0u8, 255, 255, 0, 128, 7];
    let png = bitmap_to_png(Some((3, 2, pixels.clone()))).unwrap();
    let picture = image::load_from_memory(&png).unwrap().to_luma8();
    assert_eq!(picture.dimensions(), (3, 2));
    assert_eq!(picture.into_raw(), pixels);
}

#[test]
fn a_bitmap_that_cannot_be_written() {
    assert_eq!(bitmap_to_png(None), Err(EncodingError::PayloadTooLarge));
    assert_eq!(bitmap_to_png(Some((2, 2, vec![0, 0, 0]))), Err(EncodingError::Image));
    assert_eq!(bitmap_to_png(Some((2, 2, vec![0, 0, 0, 0, 0]))), Err(EncodingError::Image));
    assert_eq!(bitmap_to_png(Some((0, 0, vec![]))), Err(EncodingError::Image));
}

#[test]
fn bytes_in_base64() {
    let uri = |bytes: &[u8]| png_to_data_uri(&bytes.to_vec());
    assert_eq!(uri(b""), "data:image/png;base64,");
    assert_eq!(uri(b"f"), "data:image/png;base64,Zg==");
    assert_eq!(uri(b"fo"), "data:image/png;base64,Zm8=");
    assert_eq!(uri(b"foo"), "data:image/png;base64,Zm9v");
    assert_eq!(uri(b"foob"), "data:image/png;base64,Zm9vYg==");
    assert_eq!(uri(b"fooba"), "data:image/png;base64,Zm9vYmE=");
    assert_eq!(uri(b"foobar"), "data:image/png;base64,Zm9vYmFy");
    assert_eq!(uri(&[0xfb, 0xff]), "data:image/png;base64,+/8=");
    assert_eq!(uri(&[0x00]), "data:image/png;base64,AA==");
    assert_eq!(uri(&[0xff, 0xff, 0xff]), "data:image/png;base64,////");
    assert_eq!(uri(&[0x00, 0x10, 0x83, 0x10, 0x51, 0x87]), "data:image/png;base64,ABCDEFGH");
}

#[test]
fn the_data_uri_holds_the_image() {
    let h = herb();
    let png = generate_qr_png_bytes(&h, None).unwrap();
    assert_eq!(generate_qr_data_uri(&h, None).unwrap(), png_to_data_uri(&png));
}
