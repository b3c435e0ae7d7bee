//! The rules for an uploaded picture of a user: it has to be declared as an
//! image, and it may not be larger than five mebibytes.

use crate::models::UserImageInput;
use crate::text::has_prefix;
use vstd::prelude::*;
use vstd::string::StringExecFns;

verus! {

/// Why an upload is refused.
#[derive(Clone, Copy, Debug, PartialEq, Eq, Structural)]
pub enum UploadError {
    /// The content is not declared as an image.
    NotAnImage,
    /// The content is larger than the limit.
    TooLarge,
}

/// The largest picture that is accepted, in bytes.
pub const MAX_IMAGE_BYTES: usize = 5242880;

/// The content type of a field that declares none.
pub open spec fn default_content_type() -> Seq<char> {
    "image/jpeg"@
}

/// The start of every content type that is an image.
pub open spec fn image_prefix() -> Seq<char> {
    "image/"@
}

/// The content type that a field has: the declared one, or the default.
pub open spec fn content_type_of(declared: Option<&str>) -> Seq<char> {
    match declared {
        Some(content_type) => content_type@,
        None => default_content_type(),
    }
}

/// Whether a content type is that of an image.
pub open spec fn is_image(content_type: Seq<char>) -> bool {
    image_prefix().is_prefix_of(content_type)
}

impl UploadError {
    /// The error in words.
    pub fn message(&self) -> (text: &'static str)
        ensures
            text@ == match *self {
                UploadError::NotAnImage => "Only image files are allowed"@,
                UploadError::TooLarge => "Image too large (max 5MB)"@,
            },
    {
        match self {
            UploadError::NotAnImage => "Only image files are allowed",
            UploadError::TooLarge => "Image too large (max 5MB)",
        }
    }
}

/// The content type under which a field is stored: the declared one, or
/// that of a JPEG picture where it declares none. A content type that is not
/// an image's is refused.
pub fn accepted_content_type(declared: Option<&str>) -> (result: Result<String, UploadError>)
    ensures
        match result {
            Ok(content_type) => is_image(content_type_of(declared)) && content_type@
                == content_type_of(declared),
            Err(error) => !is_image(content_type_of(declared)) && error == UploadError::NotAnImage,
        },
{
    let content_type = match declared {
        Some(content_type) => content_type,
        None => "image/jpeg",
    };
    if has_prefix(content_type, "image/") {
        Ok(String::from_str(content_type))
    } else {
        Err(UploadError::NotAnImage)
    }
}

/// The size under which a picture of `len` bytes is stored. A picture above
/// the limit is refused.
pub fn accepted_size(len: usize) -> (result: Result<i32, UploadError>)
    ensures
        match result {
            Ok(file_size) => len <= MAX_IMAGE_BYTES && file_size == len,
            Err(error) => len > MAX_IMAGE_BYTES && error == UploadError::TooLarge,
        },
{
    if len > MAX_IMAGE_BYTES {
        Err(UploadError::TooLarge)
    } else {
        Ok(len as i32)
    }
}

/// Checks an uploaded picture and builds what is stored for it. The content
/// type is checked first, then the size.
pub fn upload_user_image(user_id: i32, declared: Option<&str>, image_data: Vec<u8>) -> (result:
    Result<UserImageInput, UploadError>)
    ensures
        match result {
            Ok(input) => {
                &&& is_image(content_type_of(declared))
                &&& image_data@.len() <= MAX_IMAGE_BYTES
                &&& input.user_id == user_id
                &&& input.image_data == image_data
                &&& input.content_type@ == content_type_of(declared)
                &&& input.file_size == image_data@.len()
            },
            Err(error) => if !is_image(content_type_of(declared)) {
                error == UploadError::NotAnImage
            } else {
                image_data@.len() > MAX_IMAGE_BYTES && error == UploadError::TooLarge
            },
        },
{
    match accepted_content_type(declared) {
        Ok(content_type) => match accepted_size(image_data.len()) {
            Ok(file_size) => Ok(UserImageInput { user_id, image_data, content_type, file_size }),
            Err(error) => Err(error),
        },
        Err(error) => Err(error),
    }
}

} // verus!
