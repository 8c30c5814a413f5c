use auth_backend::services::avatar::plan_upload;
use auth_backend::services::avatar::plan_upload_with;
use auth_backend::services::avatar::AvatarFile;
use auth_backend::services::avatar::UploadError;
use auth_backend::services::avatar::MAX_AVATAR_BYTES;
use auth_backend::services::user_service::UserService;

const AVATAR_USER: u128 = 0x550e8400_e29b_41d4_a716_446655440000;
const AVATAR_FILE: u128 = 0x6ba7b810_9dad_11d1_80b4_00c04fd430c8;

fn upload(name: &str, size: usize) -> Option<AvatarFile> {
    Some(AvatarFile { file_name: Some(name.to_string()), size })
}

#[test]
fn an_image_is_kept_under_the_user_and_a_file_identifier() {
    let stored = plan_upload_with(upload("me.png", 1024), AVATAR_USER, AVATAR_FILE).unwrap();
    assert_eq!(
        stored.file_path,
        "uploads/avatars/550e8400-e29b-41d4-a716-446655440000_6ba7b810-9dad-11d1-80b4-00c04fd430c8.png"
    );
    assert_eq!(
        stored.avatar_url,
        "/uploads/avatars/550e8400-e29b-41d4-a716-446655440000_6ba7b810-9dad-11d1-80b4-00c04fd430c8.png"
    );
}

#[test]
fn the_extension_is_taken_in_lower_case() {
    for (name, extension) in [
        ("a.jpg", "jpg"),
        ("a.JPG", "jpg"),
        ("a.Jpeg", "jpeg"),
        ("photo.final.PNG", "png"),
        ("dir/a.gif", "gif"),
        ("a.b.c.GiF", "gif"),
    ] {
        let stored = plan_upload_with(upload(name, 1), 1, 2).unwrap();
        assert!(stored.file_path.ends_with(&format!(".{}", extension)));
        assert!(stored.avatar_url.ends_with(&format!(".{}", extension)));
        assert_eq!(stored.avatar_url, format!("/{}", stored.file_path));
    }
}

#[test]
fn an_upload_without_a_file_is_refused() {
    let error = plan_upload_with(None, 1, 2).unwrap_err();
    assert_eq!(error, UploadError::NoAvatar);
    assert_eq!(error.message(), "No avatar file found in request");
}

#[test]
fn a_file_without_a_name_is_refused() {
    let file = Some(AvatarFile { file_name: None, size: 1 });
    let error = plan_upload_with(file, 1, 2).unwrap_err();
    assert_eq!(error, UploadError::NoFilename);
    assert_eq!(error.message(), "No filename provided");
}

#[test]
fn a_name_without_an_extension_is_refused() {
    for name in ["avatar", "", ".png", "dir.d/avatar", "avatar."] {
        let verdict = plan_upload_with(upload(name, 1), 1, 2);
        if name == "avatar." {
            // An empty extension is an extension, but none of an image.
            assert_eq!(verdict.unwrap_err(), UploadError::InvalidType);
        } else {
            assert_eq!(verdict.unwrap_err(), UploadError::InvalidExtension);
        }
    }
    assert_eq!(UploadError::InvalidExtension.message(), "Invalid file extension");
}

#[test]
fn a_file_that_is_no_image_is_refused() {
    for name in ["a.exe", "a.svg", "a.png.txt", "a.jpgx", "a.webp"] {
        let error = plan_upload_with(upload(name, 1), 1, 2).unwrap_err();
        assert_eq!(error, UploadError::InvalidType);
    }
    assert_eq!(
        UploadError::InvalidType.message(),
        "Invalid file type. Only JPG, PNG, and GIF are allowed"
    );
}

#[test]
fn a_file_over_five_megabytes_is_refused() {
    assert_eq!(MAX_AVATAR_BYTES, 5 * 1024 * 1024);
    assert!(plan_upload_with(upload("a.png", 0), 1, 2).is_ok());
    assert!(plan_upload_with(upload("a.png", 5 * 1024 * 1024), 1, 2).is_ok());
    let error = plan_upload_with(upload("a.png", 5 * 1024 * 1024 + 1), 1, 2).unwrap_err();
    assert_eq!(error, UploadError::TooLarge);
    assert_eq!(error.message(), "File too large. Maximum size is 5MB");
    // The type is judged before the size.
    assert_eq!(
        plan_upload_with(upload("a.exe", usize::MAX), 1, 2).unwrap_err(),
        UploadError::InvalidType
    );
}

#[test]
fn each_upload_gets_a_file_identifier_of_its_own() {
    let first = plan_upload(upload("a.png", 1), AVATAR_USER).unwrap();
    let second = UserService::new().upload_avatar(AVATAR_USER, upload("a.png", 1)).unwrap();
    assert_ne!(first.file_path, second.file_path);
    let prefix = "uploads/avatars/550e8400-e29b-41d4-a716-446655440000_";
    assert!(first.file_path.starts_with(prefix));
    assert!(second.file_path.starts_with(prefix));
    assert_eq!(first.file_path.len(), prefix.len() + 36 + 4);
    assert_eq!(
        UserService::new().upload_avatar(AVATAR_USER, None).unwrap_err(),
        UploadError::NoAvatar
    );
}
