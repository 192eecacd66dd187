use d_id_stream::multipart::{MultipartFormData, BOUNDARY_PREFIX};

#[test]
fn text_field_is_framed_by_boundary() {
    let mut f = MultipartFormData { boundary: "B".to_string(), body: Vec::new() };
    assert!(f.add_text("name", "value").is_ok());
    assert_eq!(
        String::from_utf8(f.body.clone()).unwrap(),
        "--B\r\nContent-Disposition: form-data; name=\"name\"\r\n\r\nvalue\r\n"
    );
    assert!(f.end_body().is_ok());
    assert_eq!(
        String::from_utf8(f.body).unwrap(),
        "--B\r\nContent-Disposition: form-data; name=\"name\"\r\n\r\nvalue\r\n--B--\r\n"
    );
}

#[test]
fn non_ascii_text_is_utf8_encoded() {
    let mut f = MultipartFormData { boundary: "x".to_string(), body: vec![1] };
    f.add_text("n", "é").unwrap();
    let mut want = vec![1u8];
    want.extend_from_slice("--x\r\nContent-Disposition: form-data; name=\"n\"\r\n\r\né\r\n".as_bytes());
    assert_eq!(f.body, want);
}

#[test]
fn new_form_has_random_boundary() {
    let a = MultipartFormData::new();
    let b = MultipartFormData::new();
    assert!(a.body.is_empty());
    assert!(a.boundary.starts_with(BOUNDARY_PREFIX));
    assert!(a.boundary.len() > BOUNDARY_PREFIX.len());
    assert!(a.boundary[BOUNDARY_PREFIX.len()..].parse::<u64>().is_ok());
    assert_ne!(a.boundary, b.boundary);
}

#[test]
fn file_field_takes_type_after_first_dot() {
    let mut f = MultipartFormData { boundary: "B".to_string(), body: Vec::new() };
    assert!(f.add_file("image", "img.test.jpg", &[0xff, 0x00]).is_ok());
    let mut want = "--B\r\nContent-Disposition: form-data; name=\"image\"; filename=\"img.test.jpg\"\r\nContent-Type: image/test.jpg\r\n\r\n"
        .as_bytes()
        .to_vec();
    want.extend_from_slice(&[0xff, 0x00]);
    want.extend_from_slice(b"\r\n");
    assert_eq!(f.body, want);
}

#[test]
fn file_path_without_dot_is_refused() {
    let mut f = MultipartFormData { boundary: "B".to_string(), body: vec![7] };
    let e = f.add_file("image", "noextension", &[1, 2, 3]).unwrap_err();
    assert_eq!(e.kind(), std::io::ErrorKind::Other);
    assert_eq!(e.to_string(), "Invalid file path");
    assert_eq!(f.body, vec![7]);
}
