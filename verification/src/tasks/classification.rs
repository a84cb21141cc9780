//! The FunCaptcha classification task.

use vstd::prelude::*;
use crate::error::SolverError;
use crate::image::{base64_of, data_uri_of, encode_image, format_name, sniff_of};
use crate::props::Properties;
use crate::tasks::Task;

verus! {

/// A task that asks the service to pick the right tile of an image. The
/// solution is the zero-based tile index, sent back as a decimal string.
#[derive(Debug, Clone, PartialEq, Eq)]
pub struct FunCaptchaClassificationTask {
    /// The image to classify, as a base64-encoded string.
    pub image: String,
    /// The free-text question describing what to look for.
    pub question: String,
}

impl FunCaptchaClassificationTask {
    /// Creates a classification task from an already-encoded image and
    /// the question text.
    pub fn new(encoded_image: String, question: String) -> (r: Self)
        ensures
            r == (FunCaptchaClassificationTask { image: encoded_image, question }),
    {
        FunCaptchaClassificationTask { image: encoded_image, question }
    }

    /// Creates a classification task from raw image bytes, sniffing the
    /// container format and encoding the bytes into a `data:` URI. Fails
    /// with [`SolverError::UnknownImageFormat`] when no known signature
    /// opens the buffer, which must hold at least the 12 bytes that
    /// sniffing reads.
    pub fn from_image(image: &[u8], question: String) -> (r: Result<Self, SolverError>)
        requires
            image@.len() >= 12,
        ensures
            r is Ok <==> sniff_of(image@) is Some,
            r is Ok ==> r->Ok_0.image@ == data_uri_of(
                format_name(sniff_of(image@)->0),
                base64_of(image@),
            ) && r->Ok_0.question == question,
            r is Err ==> r->Err_0 == SolverError::UnknownImageFormat,
    {
        match encode_image(image) {
            Ok(encoded) => Ok(FunCaptchaClassificationTask { image: encoded, question }),
            Err(e) => Err(e),
        }
    }
}

impl Task for FunCaptchaClassificationTask {
    open spec fn spec_task_type(&self) -> Seq<char> {
        "FunCaptchaClassification"@
    }

    open spec fn spec_properties(&self) -> Map<Seq<char>, Seq<char>> {
        Map::<Seq<char>, Seq<char>>::empty()
            .insert("image"@, self.image@)
            .insert("question"@, self.question@)
    }

    fn task_type(&self) -> (r: &'static str) {
        "FunCaptchaClassification"
    }

    fn properties(&self) -> (r: Properties) {
        let mut map = Properties::new();
        map.insert("image".to_owned(), self.image.clone());
        map.insert("question".to_owned(), self.question.clone());
        map
    }
}

} // verus!
