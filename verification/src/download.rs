//! Where a downloaded image is stored: the name it gets from the address it
//! came from, and whether it is written at all.

use vstd::prelude::*;

verus! {

/// The error with which the `url` crate rejects a text that is no absolute
/// URL.
#[verifier::external_type_specification]
#[verifier::external_body]
pub struct ExParseError(url::ParseError);

/// What `url::Url::parse` followed by `Url::path_segments` gives for a text:
/// `None` where the text does not parse as an absolute URL, `Some(None)`
/// where the URL has no path segments, else the segments of its path in
/// order.
pub uninterp spec fn url_segments(url: Seq<char>) -> Option<Option<Seq<Seq<char>>>>;

/// The segments as sequences of characters.
pub open spec fn segments_view(segments: Option<Vec<String>>) -> Option<Seq<Seq<char>>> {
    match segments {
        Some(parts) => Some(parts.deep_view()),
        None => None,
    }
}

/// The name of a file whose address could not give one.
pub open spec fn placeholder_name() -> Seq<char> {
    "wh.img"@
}

/// The file name for an address with these path segments: the last segment,
/// or the placeholder where there is no segment or the last one is empty.
pub open spec fn name_of(segments: Option<Seq<Seq<char>>>) -> Seq<char> {
    match segments {
        Some(parts) => if parts.len() > 0 && parts.last().len() > 0 {
            parts.last()
        } else {
            placeholder_name()
        },
        None => placeholder_name(),
    }
}

/// Why no file name could be had for an address.
#[derive(Clone, Copy, Debug, PartialEq, Eq, Structural)]
pub enum NameError {
    /// The text is not an absolute URL.
    NotAUrl,
}

/// Calls `url::Url::parse` on `url` and, where that succeeds,
/// `Url::path_segments` on the outcome, copying each segment into a `String`.
/// The contract claims only that the outcome is a function of the text:
/// the error of `parse` where the text is rejected, else what
/// `path_segments` hands out.
#[verifier::external_body]
fn split_url(url: &str) -> (r: Result<Option<Vec<String>>, url::ParseError>)
    ensures
        r matches Ok(segments) ==> url_segments(url@) == Some(segments_view(segments)),
        r is Err ==> url_segments(url@) is None,
{
    let parsed = url::Url::parse(url)?;
    Ok(parsed.path_segments().map(|parts| parts.map(|part| part.to_string()).collect()))
}

/// The file name for an address whose path segments are `segments`: the
/// last segment, or `wh.img` where there is none or it is empty (an address
/// without a path, or one that ends in a slash).
pub fn file_name_of_segments(segments: &Option<Vec<String>>) -> (r: String)
    ensures
        r@ == name_of(segments_view(*segments)),
{
    match segments {
        Some(parts) => {
            let n = parts.len();
            if n > 0 {
                let last = &parts[n - 1];
                assert(parts.deep_view().last() == last@);
                if last.as_str().unicode_len() > 0 {
                    return last.clone();
                }
            }
            String::from_str("wh.img")
        },
        None => String::from_str("wh.img"),
    }
}

/// The file name under which the image at `url` is stored, or the error
/// where `url` is not an absolute URL.
pub fn file_name(url: &str) -> (r: Result<String, NameError>)
    ensures
        match url_segments(url@) {
            Some(segments) => r matches Ok(name) && name@ == name_of(segments),
            None => r == Err::<String, NameError>(NameError::NotAUrl),
        },
{
    match split_url(url) {
        Ok(segments) => Ok(file_name_of_segments(&segments)),
        Err(_) => Err(NameError::NotAUrl),
    }
}

/// Whether a download writes a file.
#[derive(Clone, Copy, Debug, PartialEq, Eq, Structural)]
pub enum Transfer {
    /// A file of that name is there already: nothing is written.
    Skip,
    /// The body is written to a new file of that name.
    Write,
}

/// What becomes of one download: the file's name, whether it is written,
/// and the line that tells the user so.
#[derive(Clone, Debug, PartialEq, Eq)]
pub struct Placement {
    pub file_name: String,
    pub transfer: Transfer,
    pub notice: String,
}

/// The line shown for a file that is already there.
pub open spec fn exists_notice(file_name: Seq<char>) -> Seq<char> {
    file_name + " already exists"@
}

/// The line shown for a file that is about to be written.
pub open spec fn downloading_notice(file_name: Seq<char>) -> Seq<char> {
    "Downloading "@ + file_name
}

/// Decides what becomes of a download named `file_name`, given whether a
/// file of that name exists in the destination. An existing file is never
/// written again; that counts as success.
pub fn place(file_name: String, exists: bool) -> (r: Placement)
    ensures
        r.file_name == file_name,
        r.transfer == (if exists {
            Transfer::Skip
        } else {
            Transfer::Write
        }),
        r.notice@ == (if exists {
            exists_notice(file_name@)
        } else {
            downloading_notice(file_name@)
        }),
{
    if exists {
        let mut notice = file_name.clone();
        notice.append(" already exists");
        Placement { file_name, transfer: Transfer::Skip, notice }
    } else {
        let mut notice = String::from_str("Downloading ");
        notice.append(file_name.as_str());
        Placement { file_name, transfer: Transfer::Write, notice }
    }
}

} // verus!
