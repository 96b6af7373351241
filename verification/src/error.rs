//! The error type of the library.

use vstd::prelude::*;

verus! {

/// An error of the library, with the text that explains it.
#[derive(Debug)]
pub enum AppError {
    ConfigError(String),
    RpcError(String),
    DecodingError(String),
    CsvError(String),
    PriceError(String),
}

/// The mathematical value of an [`AppError`]: its kind and its text.
pub enum ErrorView {
    Config(Seq<char>),
    Rpc(Seq<char>),
    Decoding(Seq<char>),
    Csv(Seq<char>),
    Price(Seq<char>),
}

impl View for AppError {
    type V = ErrorView;

    open spec fn view(&self) -> ErrorView {
        match self {
            AppError::ConfigError(m) => ErrorView::Config(m@),
            AppError::RpcError(m) => ErrorView::Rpc(m@),
            AppError::DecodingError(m) => ErrorView::Decoding(m@),
            AppError::CsvError(m) => ErrorView::Csv(m@),
            AppError::PriceError(m) => ErrorView::Price(m@),
        }
    }
}

/// A result with its error taken by its view.
pub open spec fn outcome<T>(r: Result<T, AppError>) -> Result<T, ErrorView> {
    match r {
        Ok(v) => Ok(v),
        Err(e) => Err(e@),
    }
}

/// The text shown for an error: a heading for its kind, then its message.
pub open spec fn display_text(e: ErrorView) -> Seq<char> {
    match e {
        ErrorView::Config(m) => "Configuration error: "@ + m,
        ErrorView::Rpc(m) => "RPC error: "@ + m,
        ErrorView::Decoding(m) => "Decoding error: "@ + m,
        ErrorView::Csv(m) => "CSV error: "@ + m,
        ErrorView::Price(m) => "Price error: "@ + m,
    }
}

impl AppError {
    /// The text shown for this error.
    pub fn to_string(&self) -> (r: String)
        ensures
            r@ == display_text(self@),
    {
        let mut s = String::new();
        let message: &String = match self {
            AppError::ConfigError(m) => {
                s.append("Configuration error: ");
                m
            },
            AppError::RpcError(m) => {
                s.append("RPC error: ");
                m
            },
            AppError::DecodingError(m) => {
                s.append("Decoding error: ");
                m
            },
            AppError::CsvError(m) => {
                s.append("CSV error: ");
                m
            },
            AppError::PriceError(m) => {
                s.append("Price error: ");
                m
            },
        };
        s.append(message.as_str());
        assert(s@ =~= display_text(self@));
        s
    }
}

} // verus!
