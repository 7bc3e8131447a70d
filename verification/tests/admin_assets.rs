use server::admin::{admin_index, files, AssetDir};

fn console() -> AssetDir {
    let mut d = AssetDir::new();
    d.insert("index.html".to_string(), b"<html>console</html>".to_vec());
    d.insert("app.js".to_string(), b"console.log(1)".to_vec());
    d
}

#[test]
fn files_serves_requested_asset() {
    let d = console();
    let f = files(&d, Some("app.js")).unwrap();
    assert_eq!(f.path, "app.js");
    assert_eq!(f.contents, b"console.log(1)".to_vec());
}

#[test]
fn files_falls_back_to_index_for_unknown_path() {
    let d = console();
    let f = files(&d, Some("users/42")).unwrap();
    assert_eq!(f.path, "index.html");
    assert_eq!(f.contents, b"<html>console</html>".to_vec());
}

#[test]
fn files_without_path_serves_index() {
    let d = console();
    let f = files(&d, None).unwrap();
    assert_eq!(f.path, "index.html");
}

#[test]
fn files_without_index_serves_nothing_for_unknown_path() {
    let mut d = AssetDir::new();
    d.insert("app.js".to_string(), vec![1]);
    assert!(files(&d, Some("missing")).is_none());
    assert!(files(&d, None).is_none());
    assert_eq!(files(&d, Some("app.js")).unwrap().contents, vec![1]);
}

#[test]
fn admin_index_serves_entry_page() {
    let d = console();
    assert_eq!(admin_index(&d).unwrap().contents, b"<html>console</html>".to_vec());
    assert!(admin_index(&AssetDir::new()).is_none());
}

#[test]
fn insert_replaces_existing_asset() {
    let mut d = console();
    d.insert("app.js".to_string(), vec![9, 9]);
    assert_eq!(d.get_file("app.js").unwrap().contents, vec![9, 9]);
    assert_eq!(d.get_file("index.html").unwrap().contents, b"<html>console</html>".to_vec());
    assert!(d.get_file("other.css").is_none());
}

#[test]
fn lookup_is_exact_on_path() {
    let d = console();
    assert!(d.get_file("App.js").is_none());
    assert!(d.get_file("app.js ").is_none());
    assert!(d.get_file("").is_none());
}
