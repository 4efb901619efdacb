//! Free-function ways of planning a file load.

use vstd::prelude::*;

use crate::fileloader::FileLoader;
use crate::fileloader::FileType;
use crate::fileloader::extension_of;

verus! {

/// Plans a file load (and hands back its loader).
pub fn from_url(url: &str, file_name: &str, file_type: FileType) -> (l: FileLoader)
    ensures
        l.url_spec() == "https://"@ + url@,
        l.file_spec() == "../"@ + file_name@ + "."@ + extension_of(file_type),
{
    FileLoader::new(url, file_name, file_type)
}

/// Plans a file load (and hands back its loader).
pub fn load_file(url: &str, file_name: &str, file_type: FileType) -> (l: FileLoader)
    ensures
        l.url_spec() == "https://"@ + url@,
        l.file_spec() == "../"@ + file_name@ + "."@ + extension_of(file_type),
{
    FileLoader::new(url, file_name, file_type)
}

} // verus!
