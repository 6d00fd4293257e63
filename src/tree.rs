use vstd::prelude::*;
use crate::filter::default_extensions;

verus! {

/// One entry of a directory listing, as the filesystem reported it.
///
/// A file carries its content, or `None` when it could not be read; a
/// directory carries its own listing, or `None` when it could not be listed.
/// A file that the walk never takes need not have been read, and a folder that
/// the walk never enters need not have been listed: neither is looked at.
pub enum Entry {
    File { name: String, content: Option<String> },
    Dir { name: String, children: Option<Vec<Entry>> },
    /// A symbolic link or special file: neither read nor entered.
    Other { name: String },
    /// An entry whose kind could not be determined.
    Unknown { name: String },
}

/// What a run is configured with: the extensions that make a file eligible,
/// and the folder base names whose subtrees are skipped.
pub struct Config {
    pub allowed_extensions: Vec<String>,
    pub excluded_folders: Vec<String>,
}

impl Config {
    /// The built-in allow-list, with the given folders excluded.
    pub fn new(excluded_folders: Vec<String>) -> (r: Config)
        ensures
            r.allowed_extensions@.len() == crate::filter::default_extension_names().len(),
            forall|i: int|
                0 <= i < r.allowed_extensions@.len() ==> (#[trigger] r.allowed_extensions@[i])@
                    == crate::filter::default_extension_names()[i],
            r.excluded_folders@ == excluded_folders@,
    {
        Config { allowed_extensions: default_extensions(), excluded_folders }
    }

    /// An allow-list of the caller's own, with the given folders excluded.
    pub fn with_extensions(allowed_extensions: Vec<String>, excluded_folders: Vec<String>) -> (r:
        Config)
        ensures
            r.allowed_extensions@ == allowed_extensions@,
            r.excluded_folders@ == excluded_folders@,
    {
        Config { allowed_extensions, excluded_folders }
    }
}

/// The path of an entry named `name` inside the directory at `dir`, with one
/// `/` between them (none is added after an empty path or one ending in `/`).
pub open spec fn spec_join(dir: Seq<char>, name: Seq<char>) -> Seq<char> {
    if dir.len() == 0 || dir.last() == '/' {
        dir + name
    } else {
        dir + "/"@ + name
    }
}

/// Builds the path of `name` inside `dir`.
pub fn join_path(dir: &String, name: &String) -> (r: String)
    ensures
        r@ == spec_join(dir@, name@),
{
    let mut r = dir.clone();
    let n = dir.as_str().unicode_len();
    if n > 0 && dir.as_str().get_char(n - 1) != '/' {
        r.append("/");
    }
    r.append(name.as_str());
    r
}

} // verus!
