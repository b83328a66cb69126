//! The failures that the binding reports.
//!
//! An engine call fails with a return code or a null answer and says no
//! more, so most of these carry nothing: the type says which call failed.
//! Every failure is returned to the caller, and none is retried here.

use vstd::prelude::*;

verus! {

/// The engine refused the data, path, language or mode that it was given to
/// start with.
#[derive(Debug, Clone, Copy, PartialEq, Eq)]
pub struct TessBaseApiInitError();

impl TessBaseApiInitError {
    /// The failure in words.
    pub fn to_string(&self) -> (message: String)
        ensures
            message@ == "TessBaseApi failed to initialize"@,
    {
        "TessBaseApi failed to initialize".to_owned()
    }
}

/// The engine refused a named option or the value given for it.
#[derive(Debug, Clone, Copy, PartialEq, Eq)]
pub struct TessBaseApiSetVariableError();

impl TessBaseApiSetVariableError {
    /// The failure in words.
    pub fn to_string(&self) -> (message: String)
        ensures
            message@ == "TessBaseApi failed to set variable"@,
    {
        "TessBaseApi failed to set variable".to_owned()
    }
}

/// The recognition pass reported a failure. The engine gives no cause.
#[derive(Debug, Clone, Copy, PartialEq, Eq)]
pub struct TessBaseApiRecogniseError();

impl TessBaseApiRecogniseError {
    /// The failure in words.
    pub fn to_string(&self) -> (message: String)
        ensures
            message@ == "TessBaseApi failed to recognize"@,
    {
        "TessBaseApi failed to recognize".to_owned()
    }
}

/// The engine had no hOCR text to give.
#[derive(Debug, Clone, Copy, PartialEq, Eq)]
pub struct TessBaseApiGetHocrTextError();

impl TessBaseApiGetHocrTextError {
    /// The failure in words.
    pub fn to_string(&self) -> (message: String)
        ensures
            message@ == "TessBaseApi get_hocr_text returned null"@,
    {
        "TessBaseApi get_hocr_text returned null".to_owned()
    }
}

/// The engine had no plain text to give.
#[derive(Debug, Clone, Copy, PartialEq, Eq)]
pub struct TessBaseApiGetUtf8TextError();

impl TessBaseApiGetUtf8TextError {
    /// The failure in words.
    pub fn to_string(&self) -> (message: String)
        ensures
            message@ == "TessBaseApi get_utf8_text returned null"@,
    {
        "TessBaseApi get_utf8_text returned null".to_owned()
    }
}

/// The engine had no ALTO text to give.
#[derive(Debug, Clone, Copy, PartialEq, Eq)]
pub struct TessBaseApiGetAltoTextError();

impl TessBaseApiGetAltoTextError {
    /// The failure in words.
    pub fn to_string(&self) -> (message: String)
        ensures
            message@ == "TessBaseApi get_alto_text returned null"@,
    {
        "TessBaseApi get_alto_text returned null".to_owned()
    }
}

/// The engine had no TSV text to give.
#[derive(Debug, Clone, Copy, PartialEq, Eq)]
pub struct TessBaseApiGetTsvTextError();

impl TessBaseApiGetTsvTextError {
    /// The failure in words.
    pub fn to_string(&self) -> (message: String)
        ensures
            message@ == "TessBaseApi get_tsv_text returned null"@,
    {
        "TessBaseApi get_tsv_text returned null".to_owned()
    }
}

/// The engine had no LSTM box text to give.
#[derive(Debug, Clone, Copy, PartialEq, Eq)]
pub struct TessBaseApiGetLstmBoxTextError();

impl TessBaseApiGetLstmBoxTextError {
    /// The failure in words.
    pub fn to_string(&self) -> (message: String)
        ensures
            message@ == "TessBaseApi get_lstm_box_text returned null"@,
    {
        "TessBaseApi get_lstm_box_text returned null".to_owned()
    }
}

/// The engine had no WordStr box text to give.
#[derive(Debug, Clone, Copy, PartialEq, Eq)]
pub struct TessBaseApiGetWordStrBoxTextError();

impl TessBaseApiGetWordStrBoxTextError {
    /// The failure in words.
    pub fn to_string(&self) -> (message: String)
        ensures
            message@ == "TessBaseApi get_word_str_text returned null"@,
    {
        "TessBaseApi get_word_str_text returned null".to_owned()
    }
}

/// The engine had no component images to give.
#[derive(Debug, Clone, Copy, PartialEq, Eq)]
pub struct TessBaseApiGetComponentImagesError();

impl TessBaseApiGetComponentImagesError {
    /// The failure in words.
    pub fn to_string(&self) -> (message: String)
        ensures
            message@ == "TessBaseApi get_component_images returned null"@,
    {
        "TessBaseApi get_component_images returned null".to_owned()
    }
}

/// The engine had no word confidences to give: either nothing was recognised
/// yet, or no word was found. The two cannot be told apart.
#[derive(Debug, Clone, Copy, PartialEq, Eq)]
pub struct TessBaseApiAllWordConfidencesError();

impl TessBaseApiAllWordConfidencesError {
    /// The failure in words.
    pub fn to_string(&self) -> (message: String)
        ensures
            message@ == "TessBaseApi all_word_confidences returned null"@,
    {
        "TessBaseApi all_word_confidences returned null".to_owned()
    }
}

/// Why a pixel buffer was not handed to the engine. Each variant is decided
/// from the caller's numbers alone, before any call into the engine, so the
/// caller can correct the numbers and try again.
#[derive(Debug, Clone, Copy, PartialEq, Eq)]
pub enum TessBaseApiSetImageSafetyError {
    /// Rows times bytes per row cannot be held by a buffer length.
    DimensionsExceedMemory(),
    /// Rows times bytes per row is more than the buffer holds.
    DimensionsExceedImageSize(),
    /// One row of pixels is wider than the bytes per row.
    ImageWidthExceedsBytesPerLine(),
}

impl TessBaseApiSetImageSafetyError {
    /// The text that `to_string` gives.
    pub open spec fn message(self) -> Seq<char> {
        match self {
            TessBaseApiSetImageSafetyError::DimensionsExceedMemory() => {
                "Image dimensions exceed computer memory"@
            },
            TessBaseApiSetImageSafetyError::DimensionsExceedImageSize() => {
                "Image dimensions exceed image size"@
            },
            TessBaseApiSetImageSafetyError::ImageWidthExceedsBytesPerLine() => {
                "Image width exceeds bytes per line"@
            },
        }
    }

    /// The failure in words.
    pub fn to_string(&self) -> (message: String)
        ensures
            message@ == self.message(),
    {
        match self {
            TessBaseApiSetImageSafetyError::DimensionsExceedMemory() => {
                "Image dimensions exceed computer memory".to_owned()
            },
            TessBaseApiSetImageSafetyError::DimensionsExceedImageSize() => {
                "Image dimensions exceed image size".to_owned()
            },
            TessBaseApiSetImageSafetyError::ImageWidthExceedsBytesPerLine() => {
                "Image width exceeds bytes per line".to_owned()
            },
        }
    }
}

} // verus!
