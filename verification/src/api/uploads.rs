//! The file part of a profile image upload form.
use vstd::prelude::*;
use vstd::string::*;

verus! {

/// The content type assumed for a file part that names none.
pub open spec fn default_content_type() -> Seq<char> {
    "image/jpeg"@
}

/// What an upload form carried: the bytes and content type of its last
/// part named `file`, or no bytes and the default content type.
#[derive(Debug)]
pub struct UploadForm {
    pub data: Vec<u8>,
    pub content_type: String,
}

impl UploadForm {
    /// A form with no file part read yet.
    pub fn new() -> (f: UploadForm)
        ensures
            f.data@.len() == 0,
            f.content_type@ == default_content_type(),
    {
        UploadForm { data: Vec::new(), content_type: String::from_str("image/jpeg") }
    }

    /// Whether a part with this name is the file part.
    pub fn is_file_field(name: Option<&str>) -> (b: bool)
        ensures
            b == (name matches Some(n) && n@ == "file"@),
    {
        match name {
            Some(n) => String::from_str(n) == String::from_str("file"),
            None => false,
        }
    }

    /// Keeps a file part: its bytes, and its content type or the default.
    pub fn take_file(&mut self, content_type: Option<&str>, data: Vec<u8>)
        ensures
            final(self).data@ == data@,
            final(self).content_type@ == match content_type {
                Some(c) => c@,
                None => default_content_type(),
            },
    {
        self.content_type = match content_type {
            Some(c) => String::from_str(c),
            None => String::from_str("image/jpeg"),
        };
        self.data = data;
    }
}

} // verus!
