//! Conversion of protocol values into the core's own.
use vstd::prelude::*;

use lsp_types::Url;

use crate::path_text::normalize_text;
use crate::vfs_path::{is_absolute, AbsPathBuf, VirtualFsPath};

verus! {

/// Declares `lsp_types::Url`, the document URL of a notification.
#[verifier::external_type_specification]
#[verifier::external_body]
pub struct ExUrl(Url);

/// The filesystem path a URL names, as text; `None` for a URL that names
/// none, or whose path is not UTF-8.
pub uninterp spec fn url_file_path_of(url: Url) -> Option<Seq<char>>;

/// Relies on `Url::to_file_path`: the filesystem path a `file:` URL names,
/// or `None` for a URL that names none (or one that is not UTF-8).
#[verifier::external_body]
fn url_file_path(url: &Url) -> (r: Option<String>)
    ensures
        match r {
            Some(p) => url_file_path_of(*url) == Some(p@),
            None => url_file_path_of(*url) is None,
        },
{
    url.to_file_path().ok().and_then(|p| p.to_str().map(|s| s.to_owned()))
}

/// The real identity a document URL names; a URL that names no absolute
/// path gives `Err` with the URL's text.
pub fn vfs_path(url: &Url) -> (r: Result<VirtualFsPath, String>)
    ensures
        r is Ok <==> (url_file_path_of(*url) matches Some(p) && is_absolute(p)),
        r matches Ok(q) ==> url_file_path_of(*url) matches Some(p) && q@ == (true, normalize_text(p)),
{
    match url_file_path(url) {
        Some(path) => match AbsPathBuf::try_from(path.as_str()) {
            Ok(abs) => Ok(VirtualFsPath::from_abs_path(abs)),
            Err(text) => Err(text),
        },
        None => Err(url_text(url)),
    }
}

/// Relies on `Url::as_str`: the URL's serialised text.
#[verifier::external_body]
fn url_text(url: &Url) -> (r: String)
{
    url.as_str().to_owned()
}

} // verus!
