//! The errors of a reconciliation and the text each one renders to.

use crate::text::{decimal, i32_to_string};
use vstd::prelude::*;
use vstd::string::*;

verus! {

/// One error entry of a provider's answer: a numeric code and its message.
#[derive(Debug, PartialEq, Eq)]
pub struct ResponseError {
    pub code: i32,
    pub message: String,
}

/// A [`ResponseError`] as plain values.
pub struct ResponseErrorView {
    pub code: int,
    pub message: Seq<char>,
}

impl View for ResponseError {
    type V = ResponseErrorView;

    open spec fn view(&self) -> ResponseErrorView {
        ResponseErrorView { code: self.code as int, message: self.message@ }
    }
}

/// The entries of `errors` as plain values, in the same order.
pub open spec fn error_views(errors: Seq<ResponseError>) -> Seq<ResponseErrorView> {
    errors.map_values(|e: ResponseError| e@)
}

/// One line of an error summary: the code, a colon and a blank, the message.
pub open spec fn entry_text(e: ResponseErrorView) -> Seq<char> {
    decimal(e.code) + ": "@ + e.message
}

/// The lines of all entries, with a newline between each two.
pub open spec fn joined_entries(errors: Seq<ResponseErrorView>) -> Seq<char>
    decreases errors.len(),
{
    if errors.len() == 0 {
        Seq::empty()
    } else if errors.len() == 1 {
        entry_text(errors[0])
    } else {
        joined_entries(errors.drop_last()) + "\n"@ + entry_text(errors.last())
    }
}

/// The summary of a refused request: a heading line, then one line per entry.
pub open spec fn summary_text(errors: Seq<ResponseErrorView>) -> Seq<char> {
    "There is an error:\n"@ + joined_entries(errors)
}

/// The message of a zone lookup that matched nothing.
pub open spec fn zone_not_found_text(name: Seq<char>) -> Seq<char> {
    "No Zone found for name "@ + name + "."@
}

impl ResponseError {
    /// The entry as one line of text.
    pub fn to_string(&self) -> (s: String)
        ensures
            s@ == entry_text(self@),
    {
        let mut s = i32_to_string(self.code);
        s.append(": ");
        s.append(self.message.as_str());
        s
    }
}

/// The provider answered, and refused the request: it reported `success: false`
/// together with these entries.
#[derive(Debug, PartialEq, Eq)]
pub struct ResultResponseError {
    pub errors: Vec<ResponseError>,
}

impl View for ResultResponseError {
    type V = Seq<ResponseErrorView>;

    open spec fn view(&self) -> Seq<ResponseErrorView> {
        error_views(self.errors@)
    }
}

/// The entries that an answer reports; an answer without a list reports none.
pub open spec fn reported(errors: Option<Vec<ResponseError>>) -> Seq<ResponseErrorView> {
    match errors {
        Some(v) => error_views(v@),
        None => Seq::empty(),
    }
}

impl ResultResponseError {
    /// Wraps the entries that a provider reported; `None` stands for no entry.
    pub fn new(errors: Option<Vec<ResponseError>>) -> (e: Self)
        ensures
            e@ == reported(errors),
            errors matches Some(v) ==> e.errors == v,
    {
        match errors {
            Some(v) => ResultResponseError { errors: v },
            None => ResultResponseError { errors: Vec::new() },
        }
    }

    /// The summary shown to a user: the heading, then each entry on a line of
    /// its own.
    pub fn to_string(&self) -> (s: String)
        ensures
            s@ == summary_text(self@),
    {
        let mut s = String::from_str("There is an error:\n");
        let mut i: usize = 0;
        while i < self.errors.len()
            invariant
                i <= self.errors.len(),
                s@ == summary_text(self@.take(i as int)),
            decreases self.errors.len() - i,
        {
            if i > 0 {
                s.append("\n");
            }
            let line = self.errors[i].to_string();
            s.append(line.as_str());
            assert(self@.take(i as int + 1).drop_last() =~= self@.take(i as int));
            i = i + 1;
        }
        assert(self@.take(i as int) =~= self@);
        s
    }
}

/// A failure with a message of its own, such as a zone that no lookup found.
#[derive(Debug, PartialEq, Eq)]
pub struct ResultError(pub String);

impl View for ResultError {
    type V = Seq<char>;

    open spec fn view(&self) -> Seq<char> {
        self.0@
    }
}

impl ResultError {
    /// The failure of a lookup that found no zone called `name`.
    pub fn zone_not_found(name: &str) -> (e: Self)
        ensures
            e@ == zone_not_found_text(name@),
    {
        let mut message = String::from_str("No Zone found for name ");
        message.append(name);
        message.append(".");
        ResultError(message)
    }

    /// The message behind a fixed heading.
    pub fn to_string(&self) -> (s: String)
        ensures
            s@ == "There is an error: "@ + self@,
    {
        let mut s = String::from_str("There is an error: ");
        s.append(self.0.as_str());
        s
    }
}

/// The request never produced a usable answer.
#[derive(Debug, PartialEq, Eq)]
pub enum ProviderError {
    /// The request could not be sent, or no answer arrived.
    Transport(String),
    /// The provider answered with a status outside 200..=299.
    Status(u16),
    /// The answer's body could not be read as the expected shape.
    Parse(String),
    /// An answer arrived that does not belong to the request in flight.
    UnexpectedReply,
}

/// A [`ProviderError`] as plain values.
pub enum ProviderErrorView {
    Transport(Seq<char>),
    Status(int),
    Parse(Seq<char>),
    UnexpectedReply,
}

impl View for ProviderError {
    type V = ProviderErrorView;

    open spec fn view(&self) -> ProviderErrorView {
        match self {
            ProviderError::Transport(m) => ProviderErrorView::Transport(m@),
            ProviderError::Status(c) => ProviderErrorView::Status(*c as int),
            ProviderError::Parse(m) => ProviderErrorView::Parse(m@),
            ProviderError::UnexpectedReply => ProviderErrorView::UnexpectedReply,
        }
    }
}

/// A setting that the caller had to supply and did not.
#[derive(Debug, Clone, Copy, PartialEq, Eq, Structural)]
pub enum ConfigError {
    MissingAddress,
    MissingZone,
    MissingDomain,
    MissingCredential,
}

/// Everything that can end a reconciliation early.
#[derive(Debug, PartialEq, Eq)]
pub enum Error {
    /// Transport failure, bad status or unreadable answer.
    Provider(ProviderError),
    /// The provider refused the request and said why.
    ApiLogic(ResultResponseError),
    /// No zone matched the requested name.
    ZoneNotFound(ResultError),
}

/// An [`Error`] as plain values.
pub enum ErrorView {
    Provider(ProviderErrorView),
    ApiLogic(Seq<ResponseErrorView>),
    ZoneNotFound(Seq<char>),
}

impl View for Error {
    type V = ErrorView;

    open spec fn view(&self) -> ErrorView {
        match self {
            Error::Provider(e) => ErrorView::Provider(e@),
            Error::ApiLogic(e) => ErrorView::ApiLogic(e@),
            Error::ZoneNotFound(e) => ErrorView::ZoneNotFound(e@),
        }
    }
}

} // verus!
