//! The engine handle: what each call on it means once the engine has
//! answered, and how far the handle has come.
//!
//! The engine is called by the code that links it. That code hands each
//! answer to the method of the same name here, as a plain value: a return
//! code, or `None` where the engine answered with a null pointer. The method
//! says what the caller gets back and records the handle's stage.
//!
//! The stage follows the order in which the engine expects its calls:
//! initialise, assign an image, recognise, extract. It is a record, not a
//! guard. A call made out of order is not refused here: the engine decides
//! what comes of it, the result is what the engine's answer dictates, and
//! the stage moves only along the steps listed for `Stage`.

use crate::confidences::AllWordConfidences;
use crate::error::{
    TessBaseApiAllWordConfidencesError, TessBaseApiGetAltoTextError,
    TessBaseApiGetComponentImagesError, TessBaseApiGetHocrTextError,
    TessBaseApiGetLstmBoxTextError, TessBaseApiGetTsvTextError, TessBaseApiGetUtf8TextError,
    TessBaseApiGetWordStrBoxTextError, TessBaseApiInitError, TessBaseApiRecogniseError,
    TessBaseApiSetImageSafetyError, TessBaseApiSetVariableError,
};
use crate::image_buffer::{check_image_buffer, image_buffer_verdict};
use crate::text::Text;
use vstd::prelude::*;

verus! {

/// How far a handle has come.
#[derive(Debug, Clone, Copy, PartialEq, Eq)]
pub enum Stage {
    /// The engine instance exists and nothing else has happened.
    Created,
    /// An initialisation has succeeded.
    Initialized,
    /// An image has been assigned, and no results for it are known.
    ImageAssigned,
    /// The assigned image has been recognised.
    Recognized,
}

impl Stage {
    /// The stage after an initialisation that succeeded. A handle that was
    /// further on starts again from here: whether the engine keeps an image
    /// across a second initialisation is not relied upon.
    pub open spec fn initialized(self) -> Stage {
        Stage::Initialized
    }

    /// The stage after an image has been handed to the engine. Results for
    /// an earlier image are stale from then on. Before any initialisation
    /// the step does not apply.
    pub open spec fn with_image(self) -> Stage {
        match self {
            Stage::Created => Stage::Created,
            _ => Stage::ImageAssigned,
        }
    }

    /// The stage after a recognition that succeeded, whether it was asked
    /// for or came with an extraction. Without an image the step does not
    /// apply.
    pub open spec fn recognized(self) -> Stage {
        match self {
            Stage::ImageAssigned | Stage::Recognized => Stage::Recognized,
            _ => self,
        }
    }

    /// The stage after the engine has dropped its results while keeping the
    /// image.
    pub open spec fn without_results(self) -> Stage {
        match self {
            Stage::Recognized => Stage::ImageAssigned,
            _ => self,
        }
    }

    /// Whether results are to be had at this stage, at once or through the
    /// recognition that an extraction starts.
    pub open spec fn has_image(self) -> bool {
        self is ImageAssigned || self is Recognized
    }

    fn step_with_image(self) -> (next: Stage)
        ensures
            next == self.with_image(),
    {
        match self {
            Stage::Created => Stage::Created,
            _ => Stage::ImageAssigned,
        }
    }

    fn step_recognized(self) -> (next: Stage)
        ensures
            next == self.recognized(),
    {
        match self {
            Stage::ImageAssigned | Stage::Recognized => Stage::Recognized,
            other => other,
        }
    }

    fn step_without_results(self) -> (next: Stage)
        ensures
            next == self.without_results(),
    {
        match self {
            Stage::Recognized => Stage::ImageAssigned,
            other => other,
        }
    }
}

/// What a call reports of an engine return code, where `good` is the one
/// code that stands for success and `failure` is what the call fails with.
pub open spec fn outcome_of_code<E>(ret: int, good: int, failure: E) -> Result<(), E> {
    if ret == good {
        Ok(())
    } else {
        Err(failure)
    }
}

/// The stage after an initialisation that returned `ret`: zero is success, and
/// a failure leaves no trace.
pub open spec fn stage_after_init(stage: Stage, ret: int) -> Stage {
    if ret == 0 {
        stage.initialized()
    } else {
        stage
    }
}

/// The stage after a recognition that returned `ret`: zero is success.
pub open spec fn stage_after_recognize(stage: Stage, ret: int) -> Stage {
    if ret == 0 {
        stage.recognized()
    } else {
        stage
    }
}

/// The stage after an extraction: text in hand means that the image has been
/// recognised, and a null answer changes nothing.
pub open spec fn stage_after_extraction(stage: Stage, answered: bool) -> Stage {
    if answered {
        stage.recognized()
    } else {
        stage
    }
}

/// Whether `text` is what an extraction returns for the engine's answer
/// `native`: the engine's bytes, or `failure` where the answer was null. A
/// null answer is never taken for an empty text, which the engine gives as a
/// string of length zero.
pub open spec fn is_extraction_of<E>(
    text: Result<Text, E>,
    native: Option<Vec<u8>>,
    failure: E,
) -> bool {
    match native {
        Some(bytes) => text matches Ok(t) && t@ == bytes@,
        None => text matches Err(e) && e == failure,
    }
}

/// The handle of one engine instance.
#[derive(Debug)]
pub struct TessBaseApi {
    stage: Stage,
}

impl View for TessBaseApi {
    type V = Stage;

    closed spec fn view(&self) -> Stage {
        self.stage
    }
}

/// An image that the engine holds and the caller may look at. It borrows the
/// handle it came from, so the handle cannot be given another image, nor be
/// dropped, while the image is in use. Nothing is released when it goes.
pub struct BorrowedImage<'a, P> {
    image: P,
    source: &'a TessBaseApi,
}

impl<'a, P> BorrowedImage<'a, P> {
    /// The image.
    pub closed spec fn image(&self) -> P {
        self.image
    }

    /// The stage of the handle that the image is borrowed from.
    pub closed spec fn source_stage(&self) -> Stage {
        self.source@
    }

    /// The image, to read.
    pub fn get(&self) -> (image: &P)
        ensures
            *image == self.image(),
    {
        &self.image
    }
}

impl TessBaseApi {
    /// The handle of an engine instance that has just been made.
    pub fn create() -> (api: Self)
        ensures
            api@ == Stage::Created,
    {
        TessBaseApi { stage: Stage::Created }
    }

    /// The handle's stage.
    pub fn stage(&self) -> (stage: Stage)
        ensures
            stage == self@,
    {
        self.stage
    }

    fn initialised(&mut self, ret: i32) -> (done: Result<(), TessBaseApiInitError>)
        ensures
            done == outcome_of_code(ret as int, 0, TessBaseApiInitError()),
            final(self)@ == stage_after_init(old(self)@, ret as int),
    {
        if ret == 0 {
            self.stage = Stage::Initialized;
            Ok(())
        } else {
            Err(TessBaseApiInitError())
        }
    }

    /// The engine was started from data in memory and returned `ret`.
    pub fn init_1(&mut self, ret: i32) -> (done: Result<(), TessBaseApiInitError>)
        ensures
            done == outcome_of_code(ret as int, 0, TessBaseApiInitError()),
            final(self)@ == stage_after_init(old(self)@, ret as int),
    {
        self.initialised(ret)
    }

    /// The engine was started from a data path and a language and returned
    /// `ret`.
    pub fn init_2(&mut self, ret: i32) -> (done: Result<(), TessBaseApiInitError>)
        ensures
            done == outcome_of_code(ret as int, 0, TessBaseApiInitError()),
            final(self)@ == stage_after_init(old(self)@, ret as int),
    {
        self.initialised(ret)
    }

    /// The engine was started from a data path, a language and an engine mode
    /// and returned `ret`.
    pub fn init_4(&mut self, ret: i32) -> (done: Result<(), TessBaseApiInitError>)
        ensures
            done == outcome_of_code(ret as int, 0, TessBaseApiInitError()),
            final(self)@ == stage_after_init(old(self)@, ret as int),
    {
        self.initialised(ret)
    }

    /// An image object was handed to the engine. Such an object answers for
    /// its own consistency, so nothing is checked.
    pub fn set_image_2(&mut self)
        ensures
            final(self)@ == old(self)@.with_image(),
    {
        self.stage = self.stage.step_with_image();
    }

    /// Decides whether `image_data` may be handed to the engine with the
    /// given geometry. On `Ok` the caller hands the buffer and the same four
    /// numbers to the engine; on `Err` the engine is not to be touched.
    pub fn set_image(
        &mut self,
        image_data: &[u8],
        width: i32,
        height: i32,
        bytes_per_pixel: i32,
        bytes_per_line: i32,
    ) -> (verdict: Result<(), TessBaseApiSetImageSafetyError>)
        ensures
            verdict == image_buffer_verdict(
                image_data@.len() as int,
                width as int,
                height as int,
                bytes_per_pixel as int,
                bytes_per_line as int,
            ),
            final(self)@ == if verdict is Ok {
                old(self)@.with_image()
            } else {
                old(self)@
            },
    {
        let verdict = check_image_buffer(
            image_data.len(),
            width,
            height,
            bytes_per_pixel,
            bytes_per_line,
        );
        if verdict.is_ok() {
            self.stage = self.stage.step_with_image();
        }
        verdict
    }

    /// The engine was given a named option and returned `ret`: one where it
    /// took the option, anything else where it refused.
    pub fn set_variable(&mut self, ret: i32) -> (done: Result<(), TessBaseApiSetVariableError>)
        ensures
            done == outcome_of_code(ret as int, 1, TessBaseApiSetVariableError()),
            final(self)@ == old(self)@,
    {
        if ret == 1 {
            Ok(())
        } else {
            Err(TessBaseApiSetVariableError())
        }
    }

    /// The engine was told to recognise the image and returned `ret`.
    pub fn recognize(&mut self, ret: i32) -> (done: Result<(), TessBaseApiRecogniseError>)
        ensures
            done == outcome_of_code(ret as int, 0, TessBaseApiRecogniseError()),
            final(self)@ == stage_after_recognize(old(self)@, ret as int),
    {
        if ret == 0 {
            self.stage = self.stage.step_recognized();
            Ok(())
        } else {
            Err(TessBaseApiRecogniseError())
        }
    }

    fn extracted(&mut self, native: Option<Vec<u8>>) -> (text: Option<Text>)
        ensures
            match native {
                Some(bytes) => text matches Some(t) && t@ == bytes@,
                None => text is None,
            },
            final(self)@ == stage_after_extraction(old(self)@, native is Some),
    {
        match Text::new(native) {
            Ok(text) => {
                self.stage = self.stage.step_recognized();
                Some(text)
            },
            Err(_) => None,
        }
    }

    /// The engine was asked for the plain text and answered `native`.
    pub fn get_utf8_text(&mut self, native: Option<Vec<u8>>) -> (text: Result<
        Text,
        TessBaseApiGetUtf8TextError,
    >)
        ensures
            is_extraction_of(text, native, TessBaseApiGetUtf8TextError()),
            final(self)@ == stage_after_extraction(old(self)@, native is Some),
    {
        match self.extracted(native) {
            Some(text) => Ok(text),
            None => Err(TessBaseApiGetUtf8TextError()),
        }
    }

    /// The engine was asked for hOCR markup and answered `native`.
    pub fn get_hocr_text(&mut self, native: Option<Vec<u8>>) -> (text: Result<
        Text,
        TessBaseApiGetHocrTextError,
    >)
        ensures
            is_extraction_of(text, native, TessBaseApiGetHocrTextError()),
            final(self)@ == stage_after_extraction(old(self)@, native is Some),
    {
        match self.extracted(native) {
            Some(text) => Ok(text),
            None => Err(TessBaseApiGetHocrTextError()),
        }
    }

    /// The engine's input image, if it has one: `native` is `None` where the
    /// engine answered with a null pointer. The image is lent for as long as
    /// this handle is borrowed.
    pub fn get_input_image<'a, P>(&'a self, native: Option<P>) -> (image: Option<
        BorrowedImage<'a, P>,
    >)
        ensures
            match native {
                Some(p) => image matches Some(lent) && lent.image() == p && lent.source_stage()
                    == self@,
                None => image is None,
            },
    {
        match native {
            Some(image) => Some(BorrowedImage { image, source: self }),
            None => None,
        }
    }

    /// The engine was given a rectangle to recognise within. It keeps the
    /// image and drops the results it had.
    pub fn set_rectangle(&mut self)
        ensures
            final(self)@ == old(self)@.without_results(),
    {
        self.stage = self.stage.step_without_results();
    }

    /// The engine was asked for ALTO markup and answered `native`.
    pub fn get_alto_text(&mut self, native: Option<Vec<u8>>) -> (text: Result<
        Text,
        TessBaseApiGetAltoTextError,
    >)
        ensures
            is_extraction_of(text, native, TessBaseApiGetAltoTextError()),
            final(self)@ == stage_after_extraction(old(self)@, native is Some),
    {
        match self.extracted(native) {
            Some(text) => Ok(text),
            None => Err(TessBaseApiGetAltoTextError()),
        }
    }

    /// The engine was asked for a TSV table and answered `native`.
    pub fn get_tsv_text(&mut self, native: Option<Vec<u8>>) -> (text: Result<
        Text,
        TessBaseApiGetTsvTextError,
    >)
        ensures
            is_extraction_of(text, native, TessBaseApiGetTsvTextError()),
            final(self)@ == stage_after_extraction(old(self)@, native is Some),
    {
        match self.extracted(native) {
            Some(text) => Ok(text),
            None => Err(TessBaseApiGetTsvTextError()),
        }
    }

    /// The engine was asked for a box file for LSTM training and answered
    /// `native`.
    pub fn get_lstm_box_text(&mut self, native: Option<Vec<u8>>) -> (text: Result<
        Text,
        TessBaseApiGetLstmBoxTextError,
    >)
        ensures
            is_extraction_of(text, native, TessBaseApiGetLstmBoxTextError()),
            final(self)@ == stage_after_extraction(old(self)@, native is Some),
    {
        match self.extracted(native) {
            Some(text) => Ok(text),
            None => Err(TessBaseApiGetLstmBoxTextError()),
        }
    }

    /// The engine was asked for a box file with WordStr strings and answered
    /// `native`.
    pub fn get_word_str_box_text(&mut self, native: Option<Vec<u8>>) -> (text: Result<
        Text,
        TessBaseApiGetWordStrBoxTextError,
    >)
        ensures
            is_extraction_of(text, native, TessBaseApiGetWordStrBoxTextError()),
            final(self)@ == stage_after_extraction(old(self)@, native is Some),
    {
        match self.extracted(native) {
            Some(text) => Ok(text),
            None => Err(TessBaseApiGetWordStrBoxTextError()),
        }
    }

    /// The engine was asked for the confidence of each word: `native` is
    /// what it gave, or `None` where it answered with a null pointer.
    pub fn all_word_confidences(&self, native: Option<AllWordConfidences>) -> (confidences: Result<
        AllWordConfidences,
        TessBaseApiAllWordConfidencesError,
    >)
        ensures
            match native {
                Some(given) => confidences matches Ok(kept) && kept@ == given@,
                None => confidences matches Err(e) && e == TessBaseApiAllWordConfidencesError(),
            },
    {
        match native {
            Some(confidences) => Ok(confidences),
            None => Err(TessBaseApiAllWordConfidencesError()),
        }
    }

    /// The engine was asked for the images of its components: `native` is
    /// what it gave, or `None` where it answered with a null pointer. The
    /// images are counted references of their own and outlive the handle.
    pub fn get_component_images_1<B>(&self, native: Option<B>) -> (images: Result<
        B,
        TessBaseApiGetComponentImagesError,
    >)
        ensures
            images == match native {
                Some(given) => Ok::<B, TessBaseApiGetComponentImagesError>(given),
                None => Err(TessBaseApiGetComponentImagesError()),
            },
    {
        match native {
            Some(images) => Ok(images),
            None => Err(TessBaseApiGetComponentImagesError()),
        }
    }
}

/// Recognising again right after a recognition that succeeded leaves the
/// handle as the first one left it, whatever the second one returns: nothing
/// that decides a later extraction has changed.
pub proof fn lemma_recognition_is_idempotent(stage: Stage, second: int)
    ensures
        stage_after_recognize(stage_after_recognize(stage, 0), second) == stage_after_recognize(
            stage,
            0,
        ),
{
}

/// While no image is assigned, an extraction leaves the handle where it is,
/// whatever the engine answers: no results are recorded for an image that
/// was never given.
pub proof fn lemma_no_results_without_image(stage: Stage, answered: bool)
    requires
        !stage.has_image(),
    ensures
        stage_after_extraction(stage, answered) == stage,
        !stage_after_extraction(stage, answered).has_image(),
{
}

/// Assigning an image makes earlier results stale: from wherever an
/// initialised handle stands, it is left with an image and without results.
/// A rectangle does the same to a handle whose image was recognised.
pub proof fn lemma_assignment_drops_results(stage: Stage)
    ensures
        stage != Stage::Created ==> stage.with_image() == Stage::ImageAssigned,
        stage.has_image() ==> stage.recognized().without_results() == Stage::ImageAssigned,
{
}

/// Asking for a recognition before an extraction is a matter of speed alone:
/// an extraction that yields text leaves the handle at the same stage
/// whether or not a recognition that succeeded came first.
pub proof fn lemma_explicit_recognition_is_optional(stage: Stage)
    ensures
        stage_after_extraction(stage_after_recognize(stage, 0), true) == stage_after_extraction(
            stage,
            true,
        ),
{
}

impl Default for TessBaseApi {
    fn default() -> (api: Self)
        ensures
            api@ == Stage::Created,
    {
        Self::create()
    }
}

} // verus!
