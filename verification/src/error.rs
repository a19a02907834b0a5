//! The errors of the application.
use vstd::prelude::*;
use vstd::std_specs::convert::FromSpecImpl;
use vstd::string::StringExecFns;

verus! {

/// What can go wrong, each with the text of its cause.
#[derive(Debug)]
pub enum AppError {
    Io(String),
    Download(String),
    Sheet(String),
    Youtube(String),
    Request(String),
    UrlParse(String),
    Custom(String),
}

impl AppError {
    /// The words that introduce the cause in the error's message.
    pub open spec fn prefix(&self) -> Seq<char> {
        match self {
            AppError::Io(_) => "IO error: "@,
            AppError::Download(_) => "Download error: "@,
            AppError::Sheet(_) => "Sheet error: "@,
            AppError::Youtube(_) => "Youtube error: "@,
            AppError::Request(_) => "Request error: "@,
            AppError::UrlParse(_) => "URL parse error: "@,
            AppError::Custom(_) => Seq::empty(),
        }
    }

    /// The text of the cause.
    pub open spec fn cause(&self) -> Seq<char> {
        match self {
            AppError::Io(text) => text@,
            AppError::Download(text) => text@,
            AppError::Sheet(text) => text@,
            AppError::Youtube(text) => text@,
            AppError::Request(text) => text@,
            AppError::UrlParse(text) => text@,
            AppError::Custom(text) => text@,
        }
    }

    /// The error's message: the introduction, then the cause.
    pub open spec fn text(&self) -> Seq<char> {
        self.prefix() + self.cause()
    }

    /// The error's message.
    pub fn message(&self) -> (message: String)
        ensures
            message@ == self.text(),
    {
        let mut message = String::new();
        match self {
            AppError::Io(text) => {
                message.append("IO error: ");
                message.append(text.as_str());
            },
            AppError::Download(text) => {
                message.append("Download error: ");
                message.append(text.as_str());
            },
            AppError::Sheet(text) => {
                message.append("Sheet error: ");
                message.append(text.as_str());
            },
            AppError::Youtube(text) => {
                message.append("Youtube error: ");
                message.append(text.as_str());
            },
            AppError::Request(text) => {
                message.append("Request error: ");
                message.append(text.as_str());
            },
            AppError::UrlParse(text) => {
                message.append("URL parse error: ");
                message.append(text.as_str());
            },
            AppError::Custom(text) => {
                message.append(text.as_str());
            },
        }
        assert(message@ =~= self.text());
        message
    }

    /// An application error with the message `text`.
    pub fn custom(text: &str) -> (error: Self)
        ensures
            error is Custom,
            error.cause() == text@,
            error.text() == text@,
    {
        let error = AppError::Custom(String::from_str(text));
        assert(error.text() =~= text@);
        error
    }
}

impl From<String> for AppError {
    fn from(error: String) -> (converted: Self) {
        AppError::Custom(error)
    }
}

impl FromSpecImpl<String> for AppError {
    open spec fn obeys_from_spec() -> bool {
        true
    }

    open spec fn from_spec(error: String) -> Self {
        AppError::Custom(error)
    }
}

} // verus!
