//! Profile photos: which uploads are accepted and where they are served.
use vstd::prelude::*;
use crate::errors::{AppError, AppResult, ErrorKind};
use crate::text::{chars_of, push_str, str_eq, string_from_chars};
use crate::utils::ids::{is_uuid_text, new_uuid};

verus! {

/// Largest accepted photo, in bytes (2 MiB).
pub const MAX_SIZE: usize = 2097152;

/// What to do with one field of an upload form.
pub enum FieldStep {
    /// Not the photo: go on with the next field.
    Skip,
    /// The photo, to be read and stored with this extension.
    Read(String),
    /// The photo, of a type that is refused.
    Refuse(AppError),
}

/// The step for a form field named `name` with content type `content_type`:
/// fields other than `photo` are skipped; the photo is read when its type is
/// accepted and refused otherwise.
pub fn field_step(name: &str, content_type: &str) -> (s: FieldStep)
    ensures
        name@ != "photo"@ ==> s is Skip,
        name@ == "photo"@ ==> match photo_extension_of(content_type@) {
            Some(ext) => s matches FieldStep::Read(e) && e@ == ext,
            None => s matches FieldStep::Refuse(e) && e.is(
                ErrorKind::BadRequest,
                "Only JPEG, PNG, WebP images are allowed"@,
            ),
        },
{
    if !is_photo_field(name) {
        return FieldStep::Skip;
    }
    match photo_extension(content_type) {
        Ok(ext) => FieldStep::Read(ext),
        Err(e) => FieldStep::Refuse(e),
    }
}

/// The public URL of a stored photo.
pub open spec fn photo_url_of(app_url: Seq<char>, filename: Seq<char>) -> Seq<char> {
    app_url + "/storage/photos/"@ + filename
}

/// The public URL of the stored photo `filename`.
pub fn build_photo_url(app_url: &str, filename: &str) -> (url: String)
    ensures
        url@ == photo_url_of(app_url@, filename@),
{
    let mut out = chars_of(app_url);
    push_str(&mut out, "/storage/photos/");
    push_str(&mut out, filename);
    string_from_chars(&out)
}

/// The file extension for an accepted image type, `None` for other types.
pub open spec fn photo_extension_of(content_type: Seq<char>) -> Option<Seq<char>> {
    if content_type == "image/jpeg"@ {
        Some("jpg"@)
    } else if content_type == "image/png"@ {
        Some("png"@)
    } else if content_type == "image/webp"@ {
        Some("webp"@)
    } else {
        None
    }
}

/// Whether an upload field is the photo: only the field named `photo` is read.
pub fn is_photo_field(name: &str) -> (b: bool)
    ensures
        b == (name@ == "photo"@),
{
    str_eq(name, "photo")
}

/// The extension a photo of the given content type is stored with: JPEG,
/// PNG and WebP are accepted, anything else refused.
pub fn photo_extension(content_type: &str) -> (res: AppResult<String>)
    ensures
        match photo_extension_of(content_type@) {
            Some(ext) => res matches Ok(e) && e@ == ext,
            None => res matches Err(e) && e.is(
                ErrorKind::BadRequest,
                "Only JPEG, PNG, WebP images are allowed"@,
            ),
        },
{
    if str_eq(content_type, "image/jpeg") {
        Ok(crate::text::owned("jpg"))
    } else if str_eq(content_type, "image/png") {
        Ok(crate::text::owned("png"))
    } else if str_eq(content_type, "image/webp") {
        Ok(crate::text::owned("webp"))
    } else {
        Err(AppError::new(ErrorKind::BadRequest, "Only JPEG, PNG, WebP images are allowed"))
    }
}

/// A photo of `size` bytes is accepted up to `MAX_SIZE` bytes.
pub fn check_photo_size(size: usize) -> (res: AppResult<()>)
    ensures
        size <= MAX_SIZE ==> res is Ok,
        size > MAX_SIZE ==> (res matches Err(e) && e.is(ErrorKind::BadRequest, "File size must not exceed 2MB"@)),
{
    if size > MAX_SIZE {
        Err(AppError::new(ErrorKind::BadRequest, "File size must not exceed 2MB"))
    } else {
        Ok(())
    }
}

/// The error when a request carries no photo field.
pub fn missing_photo() -> (e: AppError)
    ensures
        e.is(ErrorKind::BadRequest, "No photo field in request"@),
{
    AppError::new(ErrorKind::BadRequest, "No photo field in request")
}

/// The stored name of a photo: its id and extension.
pub open spec fn photo_filename_of(id: Seq<char>, ext: Seq<char>) -> Seq<char> {
    id + "."@ + ext
}

/// The stored name of a photo with id `id` and extension `ext`.
pub fn photo_filename_with(id: &str, ext: &str) -> (name: String)
    ensures
        name@ == photo_filename_of(id@, ext@),
{
    let mut out = chars_of(id);
    push_str(&mut out, ".");
    push_str(&mut out, ext);
    string_from_chars(&out)
}

/// A fresh stored name for a photo with extension `ext`.
pub fn photo_filename(ext: &str) -> (name: String)
    ensures
        exists|id: Seq<char>| is_uuid_text(id) && name@ == #[trigger] photo_filename_of(id, ext@),
{
    let id = new_uuid();
    photo_filename_with(id.as_str(), ext)
}

} // verus!
