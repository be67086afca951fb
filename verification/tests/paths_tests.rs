use program_station::config::ServerConfig;
use program_station::paths::{convert_path_to_url, file_path, new_upload_path, UploadKind};

fn server() -> ServerConfig {
    ServerConfig { host: "127.0.0.1".to_string(), port: 8082, thread_numbers: 4 }
}

#[test]
fn stored_file_paths() {
    assert_eq!(file_path(UploadKind::Avatar, "0"), "./static/avatar/avatar-0.jpg");
    assert_eq!(file_path(UploadKind::Cover, "abc"), "./static/cover/cover-abc.jpg");
    assert_eq!(file_path(UploadKind::Image, "x-y"), "./static/image/image-x-y.jpg");
}

#[test]
fn urls_of_stored_files() {
    let s = server();
    assert_eq!(
        convert_path_to_url(UploadKind::Cover, "./static/cover/cover-dae497c5-417a-43ca-a915-9e0c6cb42a1e.jpg", &s),
        "https://127.0.0.1:8082/api/cover/dae497c5-417a-43ca-a915-9e0c6cb42a1e"
    );
    assert_eq!(convert_path_to_url(UploadKind::Avatar, "./static/avatar/avatar-7.jpg", &s), "https://127.0.0.1:8082/api/avatar/7");
    assert_eq!(convert_path_to_url(UploadKind::Image, "./static/image/image-1.jpg", &s), "https://127.0.0.1:8082/api/image/1");
    // An upload without any file leaves the path empty.
    assert_eq!(convert_path_to_url(UploadKind::Image, "", &s), "https://127.0.0.1:8082/api/image/");
    // Repeated stems and extensions are all trimmed.
    assert_eq!(convert_path_to_url(UploadKind::Avatar, "./static/avatar/avatar-avatar-3.jpg.jpg", &s), "https://127.0.0.1:8082/api/avatar/3");
}

#[test]
fn uploaded_file_url_roundtrip() {
    let s = server();
    for kind in [UploadKind::Avatar, UploadKind::Cover, UploadKind::Image] {
        let path = new_upload_path(kind);
        let url = convert_path_to_url(kind, &path, &s);
        let id = url.rsplit('/').next().unwrap().to_string();
        assert_eq!(id.len(), 36);
        assert!(id.chars().enumerate().all(|(i, c)| if [8, 13, 18, 23].contains(&i) { c == '-' } else { c.is_ascii_hexdigit() && !c.is_ascii_uppercase() }));
        assert_eq!(file_path(kind, &id), path);
    }
    assert_ne!(new_upload_path(UploadKind::Cover), new_upload_path(UploadKind::Cover));
}
