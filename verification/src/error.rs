use vstd::prelude::*;
use crate::http::CanvasErrorResponse;
use crate::http::CanvasErrorResponseV;

verus! {

/// Everything that can go wrong in this application. Variants that an
/// outside failure feeds carry that failure's description as text.
#[derive(Debug)]
pub enum AppError {
    CliConfigServerMissingError(String),
    ConfigIoError(String),
    ConfigDeserializationError(String),
    ConfigSecretEvalCommandError(String),
    ConfigSecretEvalBufferReadError(String),
    ConfigVarError(String),
    CanvasDeserializeError(String),
    CanvasHeaderError(String),
    CanvasRequestError(String),
    CanvasServerError(CanvasErrorResponse),
    LoggingInitializationError(String),
}

/// The mathematical model of an `AppError`.
pub enum AppErrorV {
    CliConfigServerMissingError(Seq<char>),
    ConfigIoError(Seq<char>),
    ConfigDeserializationError(Seq<char>),
    ConfigSecretEvalCommandError(Seq<char>),
    ConfigSecretEvalBufferReadError(Seq<char>),
    ConfigVarError(Seq<char>),
    CanvasDeserializeError(Seq<char>),
    CanvasHeaderError(Seq<char>),
    CanvasRequestError(Seq<char>),
    CanvasServerError(CanvasErrorResponseV),
    LoggingInitializationError(Seq<char>),
}

impl View for AppError {
    type V = AppErrorV;

    open spec fn view(&self) -> AppErrorV {
        match self {
            AppError::CliConfigServerMissingError(s) => AppErrorV::CliConfigServerMissingError(s@),
            AppError::ConfigIoError(s) => AppErrorV::ConfigIoError(s@),
            AppError::ConfigDeserializationError(s) => AppErrorV::ConfigDeserializationError(s@),
            AppError::ConfigSecretEvalCommandError(s) => AppErrorV::ConfigSecretEvalCommandError(
                s@,
            ),
            AppError::ConfigSecretEvalBufferReadError(
                s,
            ) => AppErrorV::ConfigSecretEvalBufferReadError(s@),
            AppError::ConfigVarError(s) => AppErrorV::ConfigVarError(s@),
            AppError::CanvasDeserializeError(s) => AppErrorV::CanvasDeserializeError(s@),
            AppError::CanvasHeaderError(s) => AppErrorV::CanvasHeaderError(s@),
            AppError::CanvasRequestError(s) => AppErrorV::CanvasRequestError(s@),
            AppError::CanvasServerError(e) => AppErrorV::CanvasServerError(e@),
            AppError::LoggingInitializationError(s) => AppErrorV::LoggingInitializationError(s@),
        }
    }
}

impl DeepView for AppError {
    type V = AppErrorV;

    open spec fn deep_view(&self) -> AppErrorV {
        self.view()
    }
}

} // verus!
