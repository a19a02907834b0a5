use batch_downloader::config::binary_setup;
use batch_downloader::config::BinarySetup;
use batch_downloader::config::Config;
use batch_downloader::error::AppError;
use batch_downloader::lines::is_space;
use batch_downloader::lines::urls_from_text;
use batch_downloader::sheet::export_url_for;
use batch_downloader::sheet::sheet_export_url;
use batch_downloader::sheet::urls_from_sheet;
use batch_downloader::sheet::SheetRow;

#[test]
fn default_config() {
    let config = Config::default();
    assert_eq!(config.concurrent_downloads, 10);
    assert_eq!(config.buffer_size, 10);
    assert_eq!(config.output_dir, "output");
    assert_eq!(config.input_dir, "input");
    assert_eq!(config.libraries_dir, "libs");
    assert_eq!(
        config.sheet_url.as_deref(),
        Some("https://docs.google.com/spreadsheets/d/160Obd-Z9nMz2LfnbqUVvvwCvel7AGfjwREZtVwtM1_M")
    );
}

#[test]
fn error_messages() {
    assert_eq!(AppError::Io("gone".to_string()).message(), "IO error: gone");
    assert_eq!(AppError::Download("d".to_string()).message(), "Download error: d");
    assert_eq!(AppError::Sheet("s".to_string()).message(), "Sheet error: s");
    assert_eq!(AppError::Youtube("y".to_string()).message(), "Youtube error: y");
    assert_eq!(AppError::Request("r".to_string()).message(), "Request error: r");
    assert_eq!(AppError::UrlParse("u".to_string()).message(), "URL parse error: u");
    assert_eq!(AppError::Custom("plain".to_string()).message(), "plain");
}

#[test]
fn error_from_text() {
    assert_eq!(AppError::from("what".to_string()).message(), "what");
    assert!(matches!(AppError::from("what".to_string()), AppError::Custom(_)));
    assert_eq!(AppError::custom("what").message(), "what");
}

#[test]
fn sheet_row_holds_its_fields() {
    let row = SheetRow { url: "u".to_string(), status: "s".to_string(), _extra: Vec::new() };
    assert_eq!(row.url, "u");
    assert_eq!(row.status, "s");
    assert!(row._extra.is_empty());
}

#[test]
fn export_url_takes_the_third_segment() {
    let segments = vec!["spreadsheets".to_string(), "d".to_string(), "ID42".to_string()];
    assert_eq!(
        export_url_for(&segments).unwrap(),
        "https://docs.google.com/spreadsheets/d/ID42/export?format=csv&gid=0"
    );
    let short = vec!["spreadsheets".to_string(), "d".to_string()];
    match export_url_for(&short) {
        Err(AppError::Custom(text)) => assert_eq!(text, "error"),
        other => panic!("expected an error, got {:?}", other),
    }
}

#[test]
fn export_url_of_the_default_sheet() {
    let config = Config::default();
    let address = sheet_export_url(config.sheet_url.as_deref().unwrap()).unwrap();
    assert_eq!(
        address,
        "https://docs.google.com/spreadsheets/d/160Obd-Z9nMz2LfnbqUVvvwCvel7AGfjwREZtVwtM1_M/export?format=csv&gid=0"
    );
}

#[test]
fn export_url_of_an_address_with_more_segments() {
    let address =
        sheet_export_url("https://docs.google.com/spreadsheets/d/a b/edit?usp=sharing#gid=0");
    assert_eq!(
        address.unwrap(),
        "https://docs.google.com/spreadsheets/d/a%20b/export?format=csv&gid=0"
    );
}

#[test]
fn export_url_of_a_bad_address() {
    assert!(matches!(sheet_export_url("not a url"), Err(AppError::UrlParse(_))));
    match sheet_export_url("not a url") {
        Err(error) => assert_eq!(
            error.message(),
            "URL parse error: relative URL without a base"
        ),
        Ok(address) => panic!("expected an error, got {}", address),
    }
}

#[test]
fn export_url_of_an_address_with_a_bad_port() {
    match sheet_export_url("https://docs.google.com:99999/spreadsheets/d/abc/edit") {
        Err(AppError::UrlParse(text)) => assert_eq!(text, "invalid port number"),
        other => panic!("expected an error, got {:?}", other),
    }
    match sheet_export_url("https://") {
        Err(AppError::UrlParse(text)) => assert_eq!(text, "empty host"),
        other => panic!("expected an error, got {:?}", other),
    }
}

#[test]
fn export_url_of_a_short_path() {
    match sheet_export_url("https://docs.google.com/spreadsheets") {
        Err(AppError::Custom(text)) => assert_eq!(text, "error"),
        other => panic!("expected an error, got {:?}", other),
    }
}

#[test]
fn export_url_of_an_address_without_a_path() {
    match sheet_export_url("mailto:someone@example.com") {
        Err(AppError::Custom(text)) => assert_eq!(text, "error"),
        other => panic!("expected an error, got {:?}", other),
    }
}

#[test]
fn lines_are_trimmed_and_blank_lines_dropped() {
    let urls = urls_from_text("  http://a  \n\n\t\nhttp://b\r\n   \r\nhttp://c");
    assert_eq!(urls, vec!["http://a", "http://b", "http://c"]);
}

#[test]
fn text_without_items_gives_none() {
    assert!(urls_from_text("").is_empty());
    assert!(urls_from_text(" \n\t\n").is_empty());
}

#[test]
fn white_space_is_what_std_calls_white_space() {
    for code in 0..=0x10FFFFu32 {
        if let Some(c) = char::from_u32(code) {
            assert_eq!(is_space(c), c.is_whitespace(), "U+{:04X}", code);
        }
    }
}

#[test]
fn unicode_white_space_is_trimmed() {
    let urls = urls_from_text("\u{3000}http://a\u{a0}\n\u{2003}\u{85}\n\u{feff}b");
    assert_eq!(urls, vec!["http://a", "\u{feff}b"]);
}

#[test]
fn white_space_inside_a_line_stays() {
    assert_eq!(urls_from_text(" a  b \n"), vec!["a  b"]);
    assert_eq!(urls_from_text("x"), vec!["x"]);
    assert_eq!(urls_from_text("\nx\n\n"), vec!["x"]);
}

#[test]
fn items_are_those_of_lines_trim_and_filter() {
    let texts = [
        "",
        "\n",
        "a",
        "a\n",
        "a\r\n",
        "a\r",
        "\ra\n\rb",
        " a \n\n  \n b\t\r\n\r\n c d \n",
        "one\u{2028}two\nthree\u{b}\n\u{c}",
        "h\u{e9}llo \n w\u{f6}rld\u{3000}",
    ];
    for text in texts {
        let expected: Vec<String> = text
            .lines()
            .filter(|line| !line.trim().is_empty())
            .map(|line| line.trim().to_string())
            .collect();
        assert_eq!(urls_from_text(text), expected, "{:?}", text);
    }
}

#[test]
fn sheet_with_items() {
    let urls = urls_from_sheet("http://a\n http://b \n").unwrap();
    assert_eq!(urls, vec!["http://a", "http://b"]);
}

#[test]
fn sheet_without_items_is_an_error() {
    match urls_from_sheet("\n  \n") {
        Err(AppError::Custom(text)) => assert_eq!(text, "No valid URLs found in the sheet"),
        other => panic!("expected an error, got {:?}", other),
    }
}

#[test]
fn binaries_are_installed_unless_both_are_there() {
    assert_eq!(binary_setup(true, true), BinarySetup::UseInstalled);
    assert_eq!(binary_setup(true, false), BinarySetup::InstallNew);
    assert_eq!(binary_setup(false, true), BinarySetup::InstallNew);
    assert_eq!(binary_setup(false, false), BinarySetup::InstallNew);
}
