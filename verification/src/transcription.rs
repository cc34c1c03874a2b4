//! What a session hands back, and how the engine's replies are read into it.
//!
//! The engine answers in JSON. A final result is an object with a string under
//! `"text"` and, where speech was recognised, an array under `"result"` whose
//! elements are objects with numbers under `"conf"`, `"start"` and `"end"` and
//! a string under `"word"`. A partial result is an object with a string under
//! `"partial"`. Members that go by other keys are passed over. Anything else
//! is a breach of the agreement with the engine and is reported as such, never
//! papered over with a half-filled result.

use crate::error::DecodeProtocolError;
use crate::json::{document_of, items_view, lemma_items_view, parse_reply, Json, JsonView};
use vstd::prelude::*;

verus! {

/// One recognised word with its timing and confidence.
///
/// `conf`, `end` and `start` are IEEE-754 doubles, each carried as its bit
/// pattern: the confidence of the word, and the seconds at which it ends and
/// starts.
#[derive(Debug, Clone, PartialEq, Eq)]
pub struct TranscriptionWord {
    pub conf: u64,
    pub end: u64,
    pub start: u64,
    pub word: String,
}

/// A finished utterance: its text and its words in the order spoken.
#[derive(Debug, Clone, PartialEq, Eq)]
pub struct TranscriptionResult {
    pub text: String,
    pub result: Vec<TranscriptionWord>,
}

/// The hypothesis for an utterance that is still going on.
#[derive(Debug, Clone, PartialEq, Eq)]
pub struct TranscriptionPartialResult {
    pub partial: String,
}

/// The mathematical value of a [`TranscriptionWord`].
pub struct TranscriptionWordView {
    pub conf: u64,
    pub end: u64,
    pub start: u64,
    pub word: Seq<char>,
}

/// The mathematical value of a [`TranscriptionResult`].
pub struct TranscriptionResultView {
    pub text: Seq<char>,
    pub result: Seq<TranscriptionWordView>,
}

/// The mathematical value of a [`TranscriptionPartialResult`].
pub struct TranscriptionPartialResultView {
    pub partial: Seq<char>,
}

impl View for TranscriptionWord {
    type V = TranscriptionWordView;

    open spec fn view(&self) -> TranscriptionWordView {
        TranscriptionWordView {
            conf: self.conf,
            end: self.end,
            start: self.start,
            word: self.word@,
        }
    }
}

impl View for TranscriptionResult {
    type V = TranscriptionResultView;

    open spec fn view(&self) -> TranscriptionResultView {
        TranscriptionResultView {
            text: self.text@,
            result: self.result@.map_values(|w: TranscriptionWord| w@),
        }
    }
}

impl View for TranscriptionPartialResult {
    type V = TranscriptionPartialResultView;

    open spec fn view(&self) -> TranscriptionPartialResultView {
        TranscriptionPartialResultView { partial: self.partial@ }
    }
}

/// The word that a JSON value stands for: an object with numbers under
/// `"conf"`, `"end"` and `"start"` and a string under `"word"`.
pub open spec fn word_of_json(doc: JsonView) -> Option<TranscriptionWordView> {
    match (
        doc.number_at("conf"@),
        doc.number_at("end"@),
        doc.number_at("start"@),
        doc.text_at("word"@),
    ) {
        (Some(conf), Some(end), Some(start), Some(word)) => Some(
            TranscriptionWordView { conf, end, start, word },
        ),
        _ => None,
    }
}

/// The words that the elements of an array stand for, if each stands for one.
pub open spec fn words_of_json(items: Seq<JsonView>) -> Option<Seq<TranscriptionWordView>> {
    if forall|i: int| 0 <= i < items.len() ==> (#[trigger] word_of_json(items[i])) is Some {
        Some(Seq::new(items.len(), |i: int| word_of_json(items[i])->0))
    } else {
        None
    }
}

/// The final result that a JSON value stands for. A missing `"result"` is an
/// utterance without words; one that is there has to be an array of words.
pub open spec fn final_of_json(doc: JsonView) -> Option<TranscriptionResultView> {
    match doc.text_at("text"@) {
        Some(text) => match doc.get("result"@) {
            None => Some(TranscriptionResultView { text, result: Seq::empty() }),
            Some(JsonView::Array(items)) => match words_of_json(items) {
                Some(result) => Some(TranscriptionResultView { text, result }),
                None => None,
            },
            Some(_) => None,
        },
        None => None,
    }
}

/// The partial result that a JSON value stands for.
pub open spec fn partial_of_json(doc: JsonView) -> Option<TranscriptionPartialResultView> {
    match doc.text_at("partial"@) {
        Some(partial) => Some(TranscriptionPartialResultView { partial }),
        None => None,
    }
}

/// The final result that a reply of the engine stands for.
pub open spec fn final_of_reply(raw: Seq<u8>) -> Option<TranscriptionResultView> {
    match document_of(raw) {
        Some(doc) => final_of_json(doc),
        None => None,
    }
}

/// The partial result that a reply of the engine stands for.
pub open spec fn partial_of_reply(raw: Seq<u8>) -> Option<TranscriptionPartialResultView> {
    match document_of(raw) {
        Some(doc) => partial_of_json(doc),
        None => None,
    }
}

/// Reads one element of `"result"`.
pub fn word_from_json(doc: &Json) -> (res: Option<TranscriptionWord>)
    ensures
        match res {
            Some(word) => word_of_json(doc@) == Some(word@),
            None => word_of_json(doc@) is None,
        },
{
    let conf = doc.number_at("conf");
    let end = doc.number_at("end");
    let start = doc.number_at("start");
    let word = doc.text_at("word");
    match (conf, end, start, word) {
        (Some(conf), Some(end), Some(start), Some(word)) => Some(
            TranscriptionWord { conf, end, start, word },
        ),
        _ => None,
    }
}

/// Reads the elements of `"result"`, all of them or none.
pub fn words_from_json(items: &Vec<Json>) -> (res: Option<Vec<TranscriptionWord>>)
    ensures
        match res {
            Some(words) => words_of_json(items_view(items@)) == Some(
                words@.map_values(|w: TranscriptionWord| w@),
            ),
            None => words_of_json(items_view(items@)) is None,
        },
{
    let ghost docs = items_view(items@);
    proof {
        lemma_items_view(items@);
    }
    let mut words: Vec<TranscriptionWord> = Vec::new();
    let mut i: usize = 0;
    while i < items.len()
        invariant
            i <= items.len(),
            docs == items_view(items@),
            docs.len() == items.len(),
            forall|k: int| 0 <= k < items.len() ==> (#[trigger] docs[k]) == items[k]@,
            words.len() == i,
            forall|k: int| 0 <= k < i ==> word_of_json(docs[k]) == Some((#[trigger] words[k])@),
        decreases items.len() - i,
    {
        match word_from_json(&items[i]) {
            Some(word) => {
                words.push(word);
            },
            None => {
                assert(word_of_json(docs[i as int]) is None);
                return None;
            },
        }
        i += 1;
    }
    proof {
        assert forall|k: int| 0 <= k < docs.len() implies (#[trigger] word_of_json(
            docs[k],
        )) is Some by {
            assert(word_of_json(docs[k]) == Some(words[k]@));
        }
        assert(words@.map_values(|w: TranscriptionWord| w@) =~= Seq::new(
            docs.len(),
            |k: int| word_of_json(docs[k])->0,
        ));
    }
    Some(words)
}

/// Reads a final result out of a JSON document.
pub fn final_from_json(doc: &Json) -> (res: Result<TranscriptionResult, DecodeProtocolError>)
    ensures
        match res {
            Ok(result) => final_of_json(doc@) == Some(result@),
            Err(_) => final_of_json(doc@) is None,
        },
{
    let text = match doc.text_at("text") {
        Some(text) => text,
        None => {
            return Err(DecodeProtocolError);
        },
    };
    match doc.get("result") {
        None => {
            let result = TranscriptionResult { text, result: Vec::new() };
            assert(result@.result =~= Seq::empty());
            Ok(result)
        },
        Some(Json::Array(items)) => match words_from_json(items) {
            Some(words) => Ok(TranscriptionResult { text, result: words }),
            None => Err(DecodeProtocolError),
        },
        Some(_) => Err(DecodeProtocolError),
    }
}

/// Reads a partial result out of a JSON document.
pub fn partial_from_json(doc: &Json) -> (res: Result<
    TranscriptionPartialResult,
    DecodeProtocolError,
>)
    ensures
        match res {
            Ok(result) => partial_of_json(doc@) == Some(result@),
            Err(_) => partial_of_json(doc@) is None,
        },
{
    match doc.text_at("partial") {
        Some(partial) => Ok(TranscriptionPartialResult { partial }),
        None => Err(DecodeProtocolError),
    }
}

/// Decodes the engine's reply to a request for a result or a final result.
///
/// Fails where the reply is no UTF-8, no JSON, or JSON of another shape than
/// a final result has.
pub fn decode_final(raw: &[u8]) -> (res: Result<TranscriptionResult, DecodeProtocolError>)
    ensures
        match res {
            Ok(result) => final_of_reply(raw@) == Some(result@),
            Err(_) => final_of_reply(raw@) is None,
        },
{
    match parse_reply(raw) {
        Some(doc) => final_from_json(&doc),
        None => Err(DecodeProtocolError),
    }
}

/// Decodes the engine's reply to a request for a partial result.
///
/// Fails where the reply is no UTF-8, no JSON, or JSON of another shape than
/// a partial result has.
pub fn decode_partial(raw: &[u8]) -> (res: Result<
    TranscriptionPartialResult,
    DecodeProtocolError,
>)
    ensures
        match res {
            Ok(result) => partial_of_reply(raw@) == Some(result@),
            Err(_) => partial_of_reply(raw@) is None,
        },
{
    match parse_reply(raw) {
        Some(doc) => partial_from_json(&doc),
        None => Err(DecodeProtocolError),
    }
}

} // verus!
