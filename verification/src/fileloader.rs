//! Planning the load of a remote file.
//!
//! A [`FileLoader`] holds, as plain values, everything the load needs: the
//! full URL to fetch and the local path the bytes belong at. The fetch and
//! the write are I/O and stay with the caller; this module only computes and
//! records the plan.

use vstd::prelude::*;

use crate::url::https_url;

verus! {

/// Type of file to load.
#[derive(Clone, Copy, Debug, PartialEq, Eq)]
pub enum FileType {
    Json,
    Png,
    Jpeg,
    Jpg,
    Xlsx,
    Txt,
}

/// The file-name extension that belongs to each file type.
pub open spec fn extension_of(t: FileType) -> Seq<char> {
    match t {
        FileType::Json => "json"@,
        FileType::Png => "png"@,
        FileType::Jpeg => "jpeg"@,
        FileType::Jpg => "jpg"@,
        FileType::Xlsx => "xlsx"@,
        FileType::Txt => "txt"@,
    }
}

impl FileType {
    /// The extension as a string slice.
    pub fn extension(&self) -> (r: &'static str)
        ensures
            r@ == extension_of(*self),
    {
        match self {
            FileType::Json => "json",
            FileType::Png => "png",
            FileType::Jpeg => "jpeg",
            FileType::Jpg => "jpg",
            FileType::Xlsx => "xlsx",
            FileType::Txt => "txt",
        }
    }
}

/// The plan for loading one remote file: which URL to fetch (the `https`
/// scheme prefixed onto a caller-supplied host+path) and which local file
/// the bytes belong in.
pub struct FileLoader {
    url: String,
    file: String,
}

impl FileLoader {
    /// The full URL to fetch.
    pub closed spec fn url_spec(&self) -> Seq<char> {
        self.url@
    }

    /// The path of the destination file.
    pub closed spec fn file_spec(&self) -> Seq<char> {
        self.file@
    }

    /// Plans the load of `https://` + `url` into the sibling path
    /// `../<file_name>.<extension>`, the extension chosen by `file_type`.
    /// The URL is passed without a scheme.
    pub fn new(url: &str, file_name: &str, file_type: FileType) -> (l: FileLoader)
        ensures
            l.url_spec() == "https://"@ + url@,
            l.file_spec() == "../"@ + file_name@ + "."@ + extension_of(file_type),
    {
        let full_url = https_url(url);
        let path = String::from_str("../").concat(file_name).concat(".").concat(
            file_type.extension(),
        );
        FileLoader { url: full_url, file: path }
    }

    /// Hands out the planned destination file path.
    pub fn get_file(self) -> (r: String)
        ensures
            r@ == self.file_spec(),
    {
        self.file
    }

    /// The full URL to fetch, for the caller performing the transport.
    pub fn get_url(&self) -> (r: &str)
        ensures
            r@ == self.url_spec(),
    {
        self.url.as_str()
    }
}

} // verus!
