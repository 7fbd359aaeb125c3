use image_host::ids::{get_id, IdCounter};
use image_host::response::{Body, ImageKind, Response, Status};
use image_host::retrieval::{begin_load, finish_load, image_kind_of};
use image_host::text::{decimal_text, same_text};
use image_host::upload::{finish_upload, plan_upload, reject_upload, stored_name, UploadError};

fn body_text(r: &Response) -> String {
    match &r.body {
        Body::Text(t) => t.clone(),
        other => panic!("expected a text body, got {:?}", other),
    }
}

fn body_bytes(r: &Response) -> Vec<u8> {
    match &r.body {
        Body::Bytes(b) => b.clone(),
        other => panic!("expected a byte body, got {:?}", other),
    }
}

fn is_empty_body(r: &Response) -> bool {
    matches!(r.body, Body::Empty)
}

#[test]
fn ids_start_at_one_and_count_up() {
    let mut c = IdCounter::new();
    assert_eq!(get_id(&mut c), 1);
    assert_eq!(get_id(&mut c), 2);
    assert_eq!(get_id(&mut c), 3);
}

#[test]
fn ids_wrap_after_255() {
    let mut c = IdCounter::new();
    let mut last = 0u8;
    for _ in 0..255 {
        last = get_id(&mut c);
    }
    assert_eq!(last, 255);
    assert_eq!(get_id(&mut c), 0);
    assert_eq!(get_id(&mut c), 1);
}

#[test]
fn ids_distinct_before_wrap() {
    let mut c = IdCounter::new();
    let mut seen = Vec::new();
    for _ in 0..256 {
        let id = get_id(&mut c);
        assert!(!seen.contains(&id));
        seen.push(id);
    }
}

#[test]
fn decimal_numerals() {
    assert_eq!(decimal_text(0), "0");
    assert_eq!(decimal_text(7), "7");
    assert_eq!(decimal_text(10), "10");
    assert_eq!(decimal_text(42), "42");
    assert_eq!(decimal_text(100), "100");
    assert_eq!(decimal_text(205), "205");
    assert_eq!(decimal_text(255), "255");
}

#[test]
fn text_equality() {
    assert!(same_text("png", "png"));
    assert!(!same_text("png", "pn"));
    assert!(!same_text("png", "PNG"));
    assert!(same_text("", ""));
}

#[test]
fn stored_name_joins_id_and_extension() {
    assert_eq!(stored_name(3, "png"), "3.png");
    assert_eq!(stored_name(0, "JPG"), "0.JPG");
    assert_eq!(stored_name(128, "tar"), "128.tar");
}

#[test]
fn upload_name_uses_last_extension() {
    let mut c = IdCounter::new();
    assert_eq!(plan_upload(&mut c, Some("foo.png")), Ok("1.png".to_string()));
    assert_eq!(plan_upload(&mut c, Some("archive.tar.gz")), Ok("2.gz".to_string()));
    assert_eq!(plan_upload(&mut c, Some("notes.txt")), Ok("3.txt".to_string()));
    assert_eq!(plan_upload(&mut c, Some("..png")), Ok("4.png".to_string()));
}

#[test]
fn upload_name_of_path_uses_file_name() {
    let mut c = IdCounter::new();
    assert_eq!(plan_upload(&mut c, Some("dir.d/cat.jpeg")), Ok("1.jpeg".to_string()));
    assert_eq!(plan_upload(&mut c, Some("dir.d/cat")), Err(UploadError::MissingExtension));
}

#[test]
fn upload_uppercase_extension_kept() {
    let mut c = IdCounter::new();
    let name = plan_upload(&mut c, Some("photo.JPG")).unwrap();
    assert_eq!(name, "1.JPG");
    match begin_load(&name) {
        Err(r) => {
            assert_eq!(r.status, Status::NotFound);
            assert_eq!(r.status.code(), 404);
            assert!(is_empty_body(&r));
        }
        Ok(k) => panic!("expected not found, got {:?}", k),
    }
}

#[test]
fn upload_without_file_name_is_refused() {
    let mut c = IdCounter::new();
    assert_eq!(plan_upload(&mut c, None), Err(UploadError::MissingFileName));
    assert_eq!(plan_upload(&mut c, Some("foo.png")), Ok("1.png".to_string()));
}

#[test]
fn upload_without_extension_is_refused() {
    let mut c = IdCounter::new();
    assert_eq!(plan_upload(&mut c, Some("README")), Err(UploadError::MissingExtension));
    assert_eq!(plan_upload(&mut c, Some(".png")), Err(UploadError::MissingExtension));
    assert_eq!(plan_upload(&mut c, Some("")), Err(UploadError::MissingExtension));
    assert_eq!(plan_upload(&mut c, Some("..")), Err(UploadError::MissingExtension));
    assert_eq!(plan_upload(&mut c, Some("a.png")), Ok("1.png".to_string()));
}

#[test]
fn upload_with_trailing_dot_has_empty_extension() {
    let mut c = IdCounter::new();
    assert_eq!(plan_upload(&mut c, Some("foo.")), Ok("1.".to_string()));
}

#[test]
fn concurrent_uploads_get_distinct_prefixes() {
    let mut c = IdCounter::new();
    let a = plan_upload(&mut c, Some("a.png")).unwrap();
    let b = plan_upload(&mut c, Some("b.png")).unwrap();
    assert_ne!(a, b);
    assert_eq!(a, "1.png");
    assert_eq!(b, "2.png");
}

#[test]
fn rejected_upload_is_bad_request() {
    let r = reject_upload(UploadError::MissingFileName);
    assert_eq!(r.status, Status::BadRequest);
    assert_eq!(r.status.code(), 400);
    assert!(is_empty_body(&r));
    assert_eq!(r.content_type, None);
    let r = reject_upload(UploadError::MissingExtension);
    assert_eq!(r.status.code(), 400);
}

#[test]
fn finished_upload_answers_name() {
    let r = finish_upload("5.png".to_string(), Ok(()));
    assert_eq!(r.status, Status::Success);
    assert_eq!(r.status.code(), 200);
    assert_eq!(body_text(&r), "5.png");
    assert_eq!(r.content_type, None);
}

#[test]
fn failed_write_answers_error() {
    let r = finish_upload("5.png".to_string(), Err("Permission denied (os error 13)".to_string()));
    assert_eq!(r.status, Status::InternalServerError);
    assert_eq!(r.status.code(), 500);
    assert_eq!(body_text(&r), "Permission denied (os error 13)");
}

#[test]
fn content_type_table() {
    assert_eq!(image_kind_of("jpg"), Some(ImageKind::Jpeg));
    assert_eq!(image_kind_of("jpeg"), Some(ImageKind::Jpeg));
    assert_eq!(image_kind_of("png"), Some(ImageKind::Png));
    assert_eq!(image_kind_of("gif"), None);
    assert_eq!(image_kind_of("JPG"), None);
    assert_eq!(image_kind_of("PNG"), None);
    assert_eq!(image_kind_of(""), None);
    assert_eq!(image_kind_of("pngx"), None);
}

#[test]
fn load_known_extensions_read_the_file() {
    assert_eq!(begin_load("3.png").unwrap(), ImageKind::Png);
    assert_eq!(begin_load("3.jpg").unwrap(), ImageKind::Jpeg);
    assert_eq!(begin_load("12.jpeg").unwrap(), ImageKind::Jpeg);
}

#[test]
fn load_gif_is_not_found() {
    match begin_load("3.gif") {
        Err(r) => {
            assert_eq!(r.status.code(), 404);
            assert!(is_empty_body(&r));
            assert_eq!(r.content_type, None);
        }
        Ok(k) => panic!("expected not found, got {:?}", k),
    }
}

#[test]
fn load_without_extension_is_bad_request() {
    match begin_load("image") {
        Err(r) => {
            assert_eq!(r.status.code(), 400);
            assert!(is_empty_body(&r));
        }
        Ok(k) => panic!("expected bad request, got {:?}", k),
    }
}

#[test]
fn load_missing_file_is_server_error() {
    let kind = begin_load("99.png").unwrap();
    let r = finish_load(kind, Err("No such file or directory (os error 2)".to_string()));
    assert_eq!(r.status.code(), 500);
    let t = body_text(&r);
    assert!(!t.is_empty());
    assert_eq!(t, "No such file or directory (os error 2)");
    assert_eq!(r.content_type, None);
}

#[test]
fn round_trip_png() {
    let data: Vec<u8> = vec![0x89, b'P', b'N', b'G', 0, 1, 2, 255];
    let mut c = IdCounter::new();
    let name = plan_upload(&mut c, Some("foo.png")).unwrap();
    let w = finish_upload(name.clone(), Ok(()));
    assert_eq!(body_text(&w), name);
    let kind = begin_load(&name).unwrap();
    assert_eq!(kind, ImageKind::Png);
    let r = finish_load(kind, Ok(data.clone()));
    assert_eq!(r.status.code(), 200);
    assert_eq!(r.content_type, Some(ImageKind::Png));
    assert_eq!(body_bytes(&r), data);
}

#[test]
fn load_empty_file() {
    let r = finish_load(ImageKind::Jpeg, Ok(Vec::new()));
    assert_eq!(r.status, Status::Success);
    assert_eq!(r.content_type, Some(ImageKind::Jpeg));
    assert!(body_bytes(&r).is_empty());
}

#[test]
fn run_of_uploads_gets_distinct_consecutive_ids() {
    let mut c = IdCounter::new();
    let mut names: Vec<String> = Vec::new();
    for i in 0..255u32 {
        let name = plan_upload(&mut c, Some("shot.png")).unwrap();
        assert_eq!(name, format!("{}.png", i + 1));
        assert!(!names.contains(&name));
        names.push(name);
    }
    assert_eq!(get_id(&mut c), 0);
}
