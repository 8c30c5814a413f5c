//! Avatar uploads: which files are accepted, and where an accepted file is
//! kept.

use vstd::prelude::*;
use crate::utils::ident::is_random_uuid;
use vstd::string::StringExecFns;
use crate::models::user::text_of;
use crate::utils::ident::id_to_string;
use crate::utils::ident::new_id;
use crate::utils::ident::uuid_string;

verus! {

/// The largest avatar that is accepted, in bytes: five megabytes.
pub const MAX_AVATAR_BYTES: usize = 5242880;

/// The extension that `std::path::Path::extension` finds in a file name, if
/// it finds one that is text. The path is split as the target platform
/// splits paths.
pub uninterp spec fn path_extension(file_name: Seq<char>) -> Option<Seq<char>>;

/// What `str::to_lowercase` makes of a text.
pub uninterp spec fn lowercase(text: Seq<char>) -> Seq<char>;

/// Calls `Path::extension` on the path that `file_name` spells, and returns
/// the extension where it has one that is text.
#[verifier::external_body]
fn extension_of(file_name: &str) -> (extension: Option<String>)
    ensures
        text_of(extension) == path_extension(file_name@),
{
    std::path::Path::new(file_name).extension().and_then(|e| e.to_str()).map(|e| e.to_string())
}

/// Calls `str::to_lowercase`.
#[verifier::external_body]
fn to_lowercase(text: &str) -> (lowered: String)
    ensures
        lowered@ == lowercase(text@),
{
    text.to_lowercase()
}

/// Why an upload was refused.
#[derive(Clone, Copy, Debug, PartialEq, Eq, Structural)]
pub enum UploadError {
    /// The request has no file under the name `avatar`.
    NoAvatar,
    /// The file has no file name.
    NoFilename,
    /// The file name has no extension.
    InvalidExtension,
    /// The extension is none of `jpg`, `jpeg`, `png`, `gif`.
    InvalidType,
    /// The file is larger than five megabytes.
    TooLarge,
}

impl UploadError {
    /// The message of a refusal.
    pub open spec fn message_text(self) -> Seq<char> {
        match self {
            UploadError::NoAvatar => "No avatar file found in request"@,
            UploadError::NoFilename => "No filename provided"@,
            UploadError::InvalidExtension => "Invalid file extension"@,
            UploadError::InvalidType => "Invalid file type. Only JPG, PNG, and GIF are allowed"@,
            UploadError::TooLarge => "File too large. Maximum size is 5MB"@,
        }
    }

    /// The message of this refusal.
    pub fn message(&self) -> (text: String)
        ensures
            text@ == self.message_text(),
    {
        match self {
            UploadError::NoAvatar => "No avatar file found in request".to_string(),
            UploadError::NoFilename => "No filename provided".to_string(),
            UploadError::InvalidExtension => "Invalid file extension".to_string(),
            UploadError::InvalidType => {
                "Invalid file type. Only JPG, PNG, and GIF are allowed".to_string()
            },
            UploadError::TooLarge => "File too large. Maximum size is 5MB".to_string(),
        }
    }
}

/// What a request holds under the name `avatar`: the file's name, if it has
/// one, and its size in bytes.
#[derive(Debug)]
pub struct AvatarFile {
    pub file_name: Option<String>,
    pub size: usize,
}

/// Where an accepted avatar is kept: the path of the file, and the address
/// under which it is served.
#[derive(Debug)]
pub struct StoredAvatar {
    pub file_path: String,
    pub avatar_url: String,
}

/// The mathematical value of a [`StoredAvatar`].
pub ghost struct StoredAvatarView {
    pub file_path: Seq<char>,
    pub avatar_url: Seq<char>,
}

impl View for StoredAvatar {
    type V = StoredAvatarView;

    open spec fn view(&self) -> StoredAvatarView {
        StoredAvatarView { file_path: self.file_path@, avatar_url: self.avatar_url@ }
    }
}

/// Whether files of the extension `extension` are accepted.
pub open spec fn is_image_extension(extension: Seq<char>) -> bool {
    extension == "jpg"@ || extension == "jpeg"@ || extension == "png"@ || extension == "gif"@
}

/// The name under which the avatar of `user_id` is kept: the user, the
/// file's own identifier, and the extension.
pub open spec fn avatar_file_name(user_id: u128, file_id: u128, extension: Seq<char>) -> Seq<char> {
    uuid_string(user_id) + "_"@ + uuid_string(file_id) + "."@ + extension
}

/// Where the avatar of `user_id` is kept.
pub open spec fn stored_avatar(user_id: u128, file_id: u128, extension: Seq<char>)
    -> StoredAvatarView {
    StoredAvatarView {
        file_path: "uploads/avatars/"@ + avatar_file_name(user_id, file_id, extension),
        avatar_url: "/uploads/avatars/"@ + avatar_file_name(user_id, file_id, extension),
    }
}

/// The verdict on an upload. The checks run in order: a file is there, it
/// has a name, the name has an extension, the extension in lower case is one
/// of an image, the file is not too large.
pub open spec fn upload_verdict(
    file_name: Option<Option<Seq<char>>>,
    size: nat,
    user_id: u128,
    file_id: u128,
) -> Result<StoredAvatarView, UploadError> {
    match file_name {
        None => Err(UploadError::NoAvatar),
        Some(None) => Err(UploadError::NoFilename),
        Some(Some(name)) => match path_extension(name) {
            None => Err(UploadError::InvalidExtension),
            Some(extension) => if !is_image_extension(lowercase(extension)) {
                Err(UploadError::InvalidType)
            } else if size > MAX_AVATAR_BYTES {
                Err(UploadError::TooLarge)
            } else {
                Ok(stored_avatar(user_id, file_id, lowercase(extension)))
            },
        },
    }
}

/// The name of a file, if there is a file.
pub open spec fn name_of(file: Option<AvatarFile>) -> Option<Option<Seq<char>>> {
    match file {
        Some(found) => Some(text_of(found.file_name)),
        None => None,
    }
}

/// The size of a file, if there is a file.
pub open spec fn size_of(file: Option<AvatarFile>) -> nat {
    match file {
        Some(found) => found.size as nat,
        None => 0,
    }
}

/// The view of a result whose success carries a [`StoredAvatar`].
pub open spec fn stored_result(result: Result<StoredAvatar, UploadError>) -> Result<
    StoredAvatarView,
    UploadError,
> {
    match result {
        Ok(stored) => Ok(stored@),
        Err(error) => Err(error),
    }
}

/// Whether files of the extension `extension` are accepted.
fn accepts_extension(extension: &String) -> (accepted: bool)
    ensures
        accepted == is_image_extension(extension@),
{
    *extension == "jpg".to_string() || *extension == "jpeg".to_string() || *extension
        == "png".to_string() || *extension == "gif".to_string()
}

/// Judges the upload `file` of the user `user_id` and, where it is accepted,
/// says where the file is to be kept under the identifier `file_id`.
pub fn plan_upload_with(file: Option<AvatarFile>, user_id: u128, file_id: u128) -> (result: Result<
    StoredAvatar,
    UploadError,
>)
    ensures
        stored_result(result) == upload_verdict(name_of(file), size_of(file), user_id, file_id),
{
    let file = match file {
        Some(file) => file,
        None => {
            return Err(UploadError::NoAvatar);
        },
    };
    let file_name = match file.file_name {
        Some(file_name) => file_name,
        None => {
            return Err(UploadError::NoFilename);
        },
    };
    let extension = match extension_of(file_name.as_str()) {
        Some(extension) => to_lowercase(extension.as_str()),
        None => {
            return Err(UploadError::InvalidExtension);
        },
    };
    if !accepts_extension(&extension) {
        return Err(UploadError::InvalidType);
    }
    if file.size > MAX_AVATAR_BYTES {
        return Err(UploadError::TooLarge);
    }
    let mut name = id_to_string(user_id);
    name.append("_");
    name.append(id_to_string(file_id).as_str());
    name.append(".");
    name.append(extension.as_str());
    let mut file_path = "uploads/avatars/".to_string();
    file_path.append(name.as_str());
    let mut avatar_url = "/uploads/avatars/".to_string();
    avatar_url.append(name.as_str());
    Ok(StoredAvatar { file_path, avatar_url })
}

/// Judges an upload and, where it is accepted, says where the file is to be
/// kept under a fresh identifier.
pub fn plan_upload(file: Option<AvatarFile>, user_id: u128) -> (result: Result<
    StoredAvatar,
    UploadError,
>)
    ensures
        exists|file_id: u128|
            is_random_uuid(file_id) && stored_result(result) == #[trigger] upload_verdict(
                name_of(file),
                size_of(file),
                user_id,
                file_id,
            ),
{
    plan_upload_with(file, user_id, new_id())
}

} // verus!
