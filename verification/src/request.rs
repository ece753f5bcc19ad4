//! The embeddings request and its normalization to one ordered batch of texts.

use vstd::prelude::*;
use crate::error::{ApiError, ApiErrorView};

verus! {

/// The `input` member of a request: one text, or an ordered list of texts.
#[derive(Debug)]
pub enum InputType {
    Single(String),
    Batch(Vec<String>),
}

/// The wire representation a client asks for. It is accepted and has no
/// effect: embeddings are always sent as arrays of numbers.
#[derive(Clone, Copy, Debug, PartialEq, Eq, Structural)]
pub enum EncodingFormat {
    Float,
    Base64,
}

/// The name of each format on the wire.
pub open spec fn wire_name_of(format: EncodingFormat) -> Seq<char> {
    match format {
        EncodingFormat::Float => "float"@,
        EncodingFormat::Base64 => "base64"@,
    }
}

/// The format that a request asks for: the default where it names none,
/// the format of that name where there is one, and a failure for any other
/// name.
pub open spec fn requested_format(name: Option<Seq<char>>) -> Result<EncodingFormat, Seq<char>> {
    match name {
        None => Ok(EncodingFormat::Float),
        Some(name) => if name == wire_name_of(EncodingFormat::Float) {
            Ok(EncodingFormat::Float)
        } else if name == wire_name_of(EncodingFormat::Base64) {
            Ok(EncodingFormat::Base64)
        } else {
            Err(name)
        },
    }
}

impl EncodingFormat {
    /// The name of this format on the wire.
    pub fn wire_name(self) -> (name: String)
        ensures
            name@ == wire_name_of(self),
    {
        match self {
            EncodingFormat::Float => "float".to_owned(),
            EncodingFormat::Base64 => "base64".to_owned(),
        }
    }

    /// Decodes the `encoding_format` member of a request. Names are matched
    /// exactly; an unknown one makes the request invalid.
    pub fn decode(name: Option<&str>) -> (format: Result<EncodingFormat, ApiError>)
        ensures
            match requested_format(
                match name {
                    Some(name) => Some(name@),
                    None => None,
                },
            ) {
                Ok(known) => format matches Ok(f) && f == known,
                Err(unknown) => format matches Err(e) && e@ == ApiErrorView::UnknownEncoding(
                    unknown,
                ),
            },
    {
        match name {
            None => Ok(EncodingFormat::default()),
            Some(name) => {
                let name = name.to_owned();
                if name == EncodingFormat::Float.wire_name() {
                    Ok(EncodingFormat::Float)
                } else if name == EncodingFormat::Base64.wire_name() {
                    Ok(EncodingFormat::Base64)
                } else {
                    Err(ApiError::UnknownEncoding(name))
                }
            },
        }
    }
}

impl Default for EncodingFormat {
    fn default() -> (format: EncodingFormat)
        ensures
            format == EncodingFormat::Float,
    {
        EncodingFormat::Float
    }
}

/// A decoded embeddings request. `model` is advisory: the service answers
/// with the one model it has loaded, whatever the request names.
#[derive(Debug)]
pub struct EmbeddingRequest {
    pub input: InputType,
    pub model: Option<String>,
    pub encoding_format: EncodingFormat,
}

impl InputType {
    /// The batch that this input stands for: a single text is a batch of
    /// one, a list is itself, in its order.
    pub open spec fn normalized(&self) -> Seq<Seq<char>> {
        match self {
            InputType::Single(text) => seq![text@],
            InputType::Batch(texts) => texts.deep_view(),
        }
    }

    /// Resolves the union into the batch it stands for.
    pub fn into_texts(self) -> (texts: Vec<String>)
        ensures
            texts.deep_view() == self.normalized(),
    {
        match self {
            InputType::Single(text) => {
                let mut texts: Vec<String> = Vec::new();
                texts.push(text);
                assert(texts.deep_view() =~= seq![text@]);
                texts
            },
            InputType::Batch(texts) => texts,
        }
    }
}

/// Normalizes the input of a request and rejects an empty batch.
///
/// Only the batch as a whole is checked: a text of the batch may be empty.
pub fn normalize(input: InputType) -> (batch: Result<Vec<String>, ApiError>)
    ensures
        input.normalized().len() > 0 ==> batch is Ok,
        batch matches Ok(texts) ==> texts.deep_view() == input.normalized() && texts@.len() > 0,
        batch matches Err(e) ==> e == ApiError::EmptyInput && input.normalized().len() == 0,
{
    let texts = input.into_texts();
    assert(texts.deep_view().len() == texts@.len());
    if texts.len() == 0 {
        Err(ApiError::EmptyInput)
    } else {
        Ok(texts)
    }
}

/// A single text and the batch of that one text stand for the same
/// normalized batch. Handling depends on the input through its normalized
/// batch alone, so the two are handled alike.
pub proof fn law_single_is_batch_of_one(text: String, texts: Vec<String>)
    requires
        texts.deep_view() == seq![text@],
    ensures
        InputType::Single(text).normalized() == InputType::Batch(texts).normalized(),
{
}

} // verus!
