//! Verified core of a safe binding to the Tesseract OCR engine.
//!
//! The engine is reached through a C interface of opaque handles, raw
//! buffers and sentinel values. This crate holds what a binding has to
//! decide around those calls: whether a pixel buffer may be handed to the
//! engine, what a return code or a null answer means, where a
//! sentinel-terminated array ends, and which stage of its life a handle has
//! reached. The calls themselves are made by the code that links the engine.

pub mod confidences;
pub mod error;
pub mod image_buffer;
pub mod tess_base_api;
pub mod text;

pub use confidences::AllWordConfidences;
pub use error::{
    TessBaseApiAllWordConfidencesError, TessBaseApiGetAltoTextError,
    TessBaseApiGetComponentImagesError, TessBaseApiGetHocrTextError,
    TessBaseApiGetLstmBoxTextError, TessBaseApiGetTsvTextError, TessBaseApiGetUtf8TextError,
    TessBaseApiGetWordStrBoxTextError, TessBaseApiInitError, TessBaseApiRecogniseError,
    TessBaseApiSetImageSafetyError, TessBaseApiSetVariableError,
};
pub use tess_base_api::{BorrowedImage, Stage, TessBaseApi};
pub use text::{Text, TextNewError};
