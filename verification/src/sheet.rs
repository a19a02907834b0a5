//! Reading work items from a published sheet or a text file.
use crate::error::AppError;
use crate::lines::urls_from_text;
use crate::lines::work_items;
use url::Url;
use vstd::prelude::*;
use vstd::string::StringExecFns;

verus! {

/// One row of a sheet.
#[derive(Debug)]
pub struct SheetRow {
    pub url: String,
    pub status: String,
    pub _extra: Vec<String>,
}

/// The path segments of an address as the `url` crate parses it: `None`
/// where `Url::parse` refuses the address, `Some(None)` where the parsed URL
/// cannot be a base and so has no segments, else what `Url::path_segments`
/// yields.
pub uninterp spec fn url_path_segments(address: Seq<char>) -> Option<Option<Seq<Seq<char>>>>;

/// The message that the error of `Url::parse` displays for an address that
/// it refuses: one fixed sentence for each kind of error.
pub uninterp spec fn url_parse_error(address: Seq<char>) -> Seq<char>;

/// `Url::parse`, then `Url::path_segments` with each segment copied into a
/// `String`, or the message that the parser's error displays. The segments
/// are those that `url_path_segments` names, the message is the one that
/// `url_parse_error` names; both depend on the address alone.
#[verifier::external_body]
fn parse_path_segments(address: &str) -> (parsed: Result<Option<Vec<String>>, String>)
    ensures
        match parsed {
            Err(message) => url_path_segments(address@) is None && message@ == url_parse_error(
                address@,
            ),
            Ok(None) => url_path_segments(address@) == Some(None::<Seq<Seq<char>>>),
            Ok(Some(segments)) => url_path_segments(address@) == Some(
                Some(segments.deep_view()),
            ),
        },
{
    match Url::parse(address) {
        Err(error) => Err(error.to_string()),
        Ok(parsed) => Ok(
            parsed.path_segments().map(|parts| parts.map(|part| part.to_string()).collect()),
        ),
    }
}

/// Address of the CSV export of the sheet `id`.
pub open spec fn export_url(id: Seq<char>) -> Seq<char> {
    "https://docs.google.com/spreadsheets/d/"@ + id + "/export?format=csv&gid=0"@
}

/// The export address for a sheet whose address has the path `segments`:
/// the sheet's identifier is the third segment.
pub fn export_url_for(segments: &Vec<String>) -> (address: Result<String, AppError>)
    ensures
        segments@.len() > 2 ==> address is Ok && address->Ok_0@ == export_url(segments@[2]@),
        segments@.len() <= 2 ==> address is Err && address->Err_0 is Custom
            && address->Err_0.cause() == "error"@,
{
    if segments.len() > 2 {
        let mut address = String::new();
        address.append("https://docs.google.com/spreadsheets/d/");
        address.append(segments[2].as_str());
        address.append("/export?format=csv&gid=0");
        assert(address@ =~= export_url(segments@[2]@));
        Ok(address)
    } else {
        Err(AppError::custom("error"))
    }
}

/// Whether the export address of a sheet can be told from the path of the
/// sheet's address: the path has a third segment.
pub open spec fn has_sheet_id(path: Option<Seq<Seq<char>>>) -> bool {
    path is Some && path->0.len() > 2
}

/// The export address for the sheet at `sheet_url`.
///
/// An address that the URL parser refuses gives `UrlParse` with the
/// parser's message. An address without path segments, or with fewer than
/// three, gives `Custom`. Else the third segment is the sheet's identifier.
pub fn sheet_export_url(sheet_url: &str) -> (address: Result<String, AppError>)
    ensures
        match url_path_segments(sheet_url@) {
            None => address is Err && address->Err_0 is UrlParse && address->Err_0.cause()
                == url_parse_error(sheet_url@),
            Some(path) => if has_sheet_id(path) {
                address is Ok && address->Ok_0@ == export_url(path->0[2])
            } else {
                address is Err && address->Err_0 is Custom && address->Err_0.cause() == "error"@
            },
        },
{
    match parse_path_segments(sheet_url) {
        Err(message) => Err(AppError::UrlParse(message)),
        Ok(None) => Err(AppError::custom("error")),
        Ok(Some(segments)) => export_url_for(&segments),
    }
}

/// The work items of a sheet's export: as for a text, but an export
/// without any item is an error.
pub fn urls_from_sheet(content: &str) -> (urls: Result<Vec<String>, AppError>)
    ensures
        work_items(content@).len() > 0 ==> urls is Ok && urls->Ok_0.deep_view() == work_items(
            content@,
        ),
        work_items(content@).len() == 0 ==> urls is Err && urls->Err_0 is Custom
            && urls->Err_0.cause() == "No valid URLs found in the sheet"@,
{
    let urls = urls_from_text(content);
    if urls.len() == 0 {
        Err(AppError::custom("No valid URLs found in the sheet"))
    } else {
        Ok(urls)
    }
}

} // verus!
