use vstd::prelude::*;
use vstd::string::*;

verus! {

/// The closed set of failures of one run, each with a descriptive message.
#[derive(Debug)]
pub enum AppError {
    Config(String),
    Clipboard(String),
    Image(String),
    Api(String),
    Io(String),
    LogSetup(String),
}

/// The heading shown in front of the detail of each kind of failure.
pub open spec fn heading_of(e: AppError) -> Seq<char> {
    match e {
        AppError::Config(_) => "Configuration error: "@,
        AppError::Clipboard(_) => "Clipboard error: "@,
        AppError::Image(_) => "Image processing error: "@,
        AppError::Api(_) => "API request error: "@,
        AppError::Io(_) => "I/O error: "@,
        AppError::LogSetup(_) => "Logging setup error: "@,
    }
}

impl AppError {
    /// The descriptive message carried by the error.
    pub open spec fn detail_view(&self) -> Seq<char> {
        match self {
            AppError::Config(s) => s@,
            AppError::Clipboard(s) => s@,
            AppError::Image(s) => s@,
            AppError::Api(s) => s@,
            AppError::Io(s) => s@,
            AppError::LogSetup(s) => s@,
        }
    }

    /// The descriptive message carried by the error.
    pub fn detail(&self) -> (r: &str)
        ensures
            r@ == self.detail_view(),
    {
        match self {
            AppError::Config(s) => s.as_str(),
            AppError::Clipboard(s) => s.as_str(),
            AppError::Image(s) => s.as_str(),
            AppError::Api(s) => s.as_str(),
            AppError::Io(s) => s.as_str(),
            AppError::LogSetup(s) => s.as_str(),
        }
    }

    /// The full human-readable rendering: a heading for the kind, then the detail.
    pub fn message(&self) -> (r: String)
        ensures
            r@ == heading_of(*self) + self.detail_view(),
    {
        let heading = match self {
            AppError::Config(_) => "Configuration error: ",
            AppError::Clipboard(_) => "Clipboard error: ",
            AppError::Image(_) => "Image processing error: ",
            AppError::Api(_) => "API request error: ",
            AppError::Io(_) => "I/O error: ",
            AppError::LogSetup(_) => "Logging setup error: ",
        };
        let mut r = String::from_str(heading);
        r.append(self.detail());
        r
    }
}

/// Joins a fixed heading and a detail into one owned message.
pub fn join_message(head: &str, detail: &str) -> (r: String)
    ensures
        r@ == head@ + detail@,
{
    let mut r = String::from_str(head);
    r.append(detail);
    r
}

} // verus!
