use wallgallery::digest::{content_digest, file_uri, thumb_file_name};

#[test]
fn file_uri_prefixes_the_path() {
    let path = String::from("/home/user/Pictures/Wallpapers/a.png");
    assert_eq!(file_uri(&path), "file:///home/user/Pictures/Wallpapers/a.png");
}

#[test]
fn digest_matches_md5_of_the_uri() {
    let path = String::from("/tmp/wall.png");
    let expected = format!("{:x}", md5::compute("file:///tmp/wall.png".as_bytes()));
    assert_eq!(content_digest(&path), expected);
}

#[test]
fn digest_is_deterministic_and_path_only() {
    let a = String::from("/pics/one.jpg");
    let b = String::from("/pics/one.jpg");
    assert_eq!(content_digest(&a), content_digest(&b));
    let other = String::from("/pics/two.jpg");
    assert_ne!(content_digest(&a), content_digest(&other));
}

#[test]
fn digest_is_not_the_path_itself() {
    let path = String::from("/pics/one.jpg");
    let d = content_digest(&path);
    assert_eq!(d.len(), 32);
    assert_ne!(d, path);
    assert!(d.chars().all(|c| c.is_ascii_hexdigit()));
}

#[test]
fn thumb_file_name_appends_png() {
    let digest = String::from("0123456789abcdef0123456789abcdef");
    assert_eq!(
        thumb_file_name(&digest),
        "0123456789abcdef0123456789abcdef.png"
    );
}
