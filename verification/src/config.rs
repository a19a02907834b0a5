//! The settings of the application.
use vstd::prelude::*;
use vstd::string::StringExecFns;

verus! {

/// Concurrency limit, buffer size, directories and the sheet to read.
#[derive(Debug)]
pub struct Config {
    pub concurrent_downloads: usize,
    pub buffer_size: usize,
    pub output_dir: String,
    pub input_dir: String,
    pub libraries_dir: String,
    pub sheet_url: Option<String>,
}

/// Address of the sheet that is read by default.
pub open spec fn default_sheet_url() -> Seq<char> {
    "https://docs.google.com/spreadsheets/d/160Obd-Z9nMz2LfnbqUVvvwCvel7AGfjwREZtVwtM1_M"@
}

impl Default for Config {
    /// Ten jobs at a time, a buffer of ten, the directories `output`,
    /// `input` and `libs`, and the default sheet.
    fn default() -> (config: Self)
        ensures
            config.concurrent_downloads == 10,
            config.buffer_size == 10,
            config.output_dir@ == "output"@,
            config.input_dir@ == "input"@,
            config.libraries_dir@ == "libs"@,
            config.sheet_url is Some,
            config.sheet_url->0@ == default_sheet_url(),
    {
        Config {
            concurrent_downloads: 10,
            buffer_size: 10,
            output_dir: String::from_str("output"),
            input_dir: String::from_str("input"),
            libraries_dir: String::from_str("libs"),
            sheet_url: Some(
                String::from_str(
                    "https://docs.google.com/spreadsheets/d/160Obd-Z9nMz2LfnbqUVvvwCvel7AGfjwREZtVwtM1_M",
                ),
            ),
        }
    }
}

/// How the fetcher gets the two programs that it runs.
#[derive(Clone, Copy, Debug, PartialEq, Eq, Structural)]
pub enum BinarySetup {
    /// Install both programs anew.
    InstallNew,
    /// Use the installed programs, and update the downloader.
    UseInstalled,
}

/// The installed programs are used only where both are there: if either
/// is missing, both are installed anew.
pub fn binary_setup(has_downloader: bool, has_converter: bool) -> (setup: BinarySetup)
    ensures
        setup == (if has_downloader && has_converter {
            BinarySetup::UseInstalled
        } else {
            BinarySetup::InstallNew
        }),
{
    if !has_downloader || !has_converter {
        BinarySetup::InstallNew
    } else {
        BinarySetup::UseInstalled
    }
}

} // verus!
