//! Recognition sessions: how they are made from a model, and the protocol by
//! which audio goes in and results come out.
//!
//! A session is `Listening` from the moment it is made until its final result
//! is taken, and `Finalized` from then on. Audio and the results of single
//! utterances belong to a listening session; a finalized one answers nothing
//! but another request for the final result, and can be released.
//!
//! The engine does the recognising. Each operation here stands for one call
//! of the engine, which the caller makes, and takes the engine's reply as an
//! argument: the operation says what that reply means and what the session is
//! afterwards.

use crate::config::{
    sampling_freq_valid, SessionVariant, SessionVariantView, VoskSessionConfig,
    VoskSessionConfigView,
};
use crate::error::{DecodeProtocolError, InvalidStateError, SessionCreateError, SessionError};
use crate::json::{array_of_texts, grammar_text, json_document, phrases_to_json};
use crate::model::{VoskModel, VoskModelView};
use crate::speaker::{SpeakerModel, SpeakerModelView};
use crate::transcription::{
    decode_final, decode_partial, final_of_reply, partial_of_reply, TranscriptionPartialResult,
    TranscriptionPartialResultView, TranscriptionResult, TranscriptionResultView,
};
use vstd::prelude::*;

verus! {

/// Where a session stands in its life.
#[derive(Debug, Clone, Copy, PartialEq, Eq, Structural)]
pub enum SessionState {
    /// Audio is taken and results are given.
    Listening,
    /// The final result has been taken; no more audio is accepted.
    Finalized,
}

/// The arguments with which the engine is asked for a session.
#[derive(Debug, PartialEq, Eq)]
pub struct SessionRequest {
    /// The handle of the model.
    pub model: usize,
    /// The sampling frequency, as the bits of a single.
    pub sampling_freq: u32,
    /// The grammar as a JSON array of strings, for a constrained session.
    pub grammar: Option<String>,
    /// The handle of the speaker model, for a session that identifies speakers.
    pub speaker: Option<usize>,
}

/// The mathematical value of a [`SessionRequest`].
pub struct SessionRequestView {
    pub model: usize,
    pub sampling_freq: u32,
    pub grammar: Option<Seq<char>>,
    pub speaker: Option<usize>,
}

impl View for SessionRequest {
    type V = SessionRequestView;

    open spec fn view(&self) -> SessionRequestView {
        SessionRequestView {
            model: self.model,
            sampling_freq: self.sampling_freq,
            grammar: match self.grammar {
                Some(text) => Some(text@),
                None => None,
            },
            speaker: self.speaker,
        }
    }
}

/// What the engine is asked for, given a model and a configuration. There is
/// a request unless the phrases of a grammar have no JSON text.
///
/// The model's handle and the frequency go into every request. A grammar
/// goes in as the JSON text of its phrases, a speaker model as its handle.
pub open spec fn session_request_of(model: VoskModelView, config: VoskSessionConfigView) -> Option<
    SessionRequestView,
> {
    match config.variant {
        SessionVariantView::Default => Some(
            SessionRequestView {
                model: model.handle,
                sampling_freq: config.freq,
                grammar: None,
                speaker: None,
            },
        ),
        SessionVariantView::GrammarConstrained(phrases) => match grammar_text(phrases) {
            Some(text) => Some(
                SessionRequestView {
                    model: model.handle,
                    sampling_freq: config.freq,
                    grammar: Some(text),
                    speaker: None,
                },
            ),
            None => None,
        },
        SessionVariantView::SpeakerEnabled(speaker) => Some(
            SessionRequestView {
                model: model.handle,
                sampling_freq: config.freq,
                grammar: None,
                speaker: Some(speaker.handle),
            },
        ),
    }
}

/// One stream of audio being recognised.
#[derive(Debug, PartialEq, Eq)]
pub struct VoskSession<'m> {
    model: &'m VoskModel,
    speaker: Option<&'m SpeakerModel>,
    handle: usize,
    freq: u32,
    state: SessionState,
    boundary: bool,
    samples: u64,
}

/// The mathematical value of a [`VoskSession`].
pub struct VoskSessionView {
    /// The model that the session was made from.
    pub model: VoskModelView,
    /// The speaker model that it identifies speakers with, if any.
    pub speaker: Option<SpeakerModelView>,
    /// The engine's handle for the session, never null.
    pub handle: usize,
    /// The sampling frequency that it was made with, as the bits of a single.
    pub freq: u32,
    /// Where it stands in its life.
    pub state: SessionState,
    /// Whether the audio fed last closed an utterance whose result has not
    /// been taken yet.
    pub boundary: bool,
    /// How many samples have been fed, counted up to `u64::MAX`.
    pub samples: u64,
}

impl VoskSessionView {
    /// What every session satisfies: its handle is not null, its frequency is
    /// greater than zero, and once it is finalized no utterance is waiting.
    pub open spec fn valid(self) -> bool {
        &&& self.handle != 0
        &&& sampling_freq_valid(self.freq)
        &&& self.state == SessionState::Finalized ==> !self.boundary
    }

    /// The session that comes of a model, a configuration and the handle that
    /// the engine gave.
    pub open spec fn created(
        model: VoskModelView,
        config: VoskSessionConfigView,
        handle: usize,
    ) -> VoskSessionView {
        VoskSessionView {
            model,
            speaker: match config.variant {
                SessionVariantView::SpeakerEnabled(speaker) => Some(speaker),
                _ => None,
            },
            handle,
            freq: config.freq,
            state: SessionState::Listening,
            boundary: false,
            samples: 0,
        }
    }

    /// Feeding `len` samples to which the engine replied `accepted`.
    ///
    /// A finalized session refuses and stays as it is. A listening one counts
    /// the samples, and the engine's reply of 1, and no other, says that an
    /// utterance has come to its end.
    pub open spec fn feed(self, len: nat, accepted: i32) -> (
        VoskSessionView,
        Result<bool, InvalidStateError>,
    ) {
        match self.state {
            SessionState::Finalized => (self, Err(InvalidStateError)),
            SessionState::Listening => (
                VoskSessionView {
                    boundary: accepted == 1,
                    samples: if self.samples + len <= u64::MAX {
                        (self.samples + len) as u64
                    } else {
                        u64::MAX
                    },
                    ..self
                },
                Ok(accepted == 1),
            ),
        }
    }

    /// Taking the result of the utterance that has closed, from the engine's
    /// reply `raw`.
    ///
    /// A finalized session refuses and stays as it is. For a listening one
    /// the utterance is then taken, whatever the reply holds.
    pub open spec fn get_result(self, raw: Seq<u8>) -> (
        VoskSessionView,
        Result<TranscriptionResultView, SessionError>,
    ) {
        match self.state {
            SessionState::Finalized => (self, Err(SessionError::InvalidState(InvalidStateError))),
            SessionState::Listening => (
                VoskSessionView { boundary: false, ..self },
                match final_of_reply(raw) {
                    Some(result) => Ok(result),
                    None => Err(SessionError::DecodeProtocol(DecodeProtocolError)),
                },
            ),
        }
    }

    /// Looking at the hypothesis for the utterance that is going on, from the
    /// engine's reply `raw`. A finalized session refuses.
    pub open spec fn get_partial_result(self, raw: Seq<u8>) -> Result<
        TranscriptionPartialResultView,
        SessionError,
    > {
        match self.state {
            SessionState::Finalized => Err(SessionError::InvalidState(InvalidStateError)),
            SessionState::Listening => match partial_of_reply(raw) {
                Some(partial) => Ok(partial),
                None => Err(SessionError::DecodeProtocol(DecodeProtocolError)),
            },
        }
    }

    /// Taking the final result, from the engine's reply `raw`. The session is
    /// finalized afterwards, whatever it was and whatever the reply holds.
    pub open spec fn get_final_result(self, raw: Seq<u8>) -> (
        VoskSessionView,
        Result<TranscriptionResultView, DecodeProtocolError>,
    ) {
        (
            VoskSessionView { state: SessionState::Finalized, boundary: false, ..self },
            match final_of_reply(raw) {
                Some(result) => Ok(result),
                None => Err(DecodeProtocolError),
            },
        )
    }
}

/// One operation on a session together with what the engine replied.
pub enum SessionStep {
    /// `len` samples were fed and the engine replied `accepted`.
    Feed { len: nat, accepted: i32 },
    /// A result was asked for and the engine replied `raw`.
    Result { raw: Seq<u8> },
    /// A partial result was asked for and the engine replied `raw`.
    PartialResult { raw: Seq<u8> },
    /// The final result was asked for and the engine replied `raw`.
    FinalResult { raw: Seq<u8> },
}

impl VoskSessionView {
    /// The session after a step. Looking at the partial result leaves it as
    /// it is.
    pub open spec fn after(self, step: SessionStep) -> VoskSessionView {
        match step {
            SessionStep::Feed { len, accepted } => self.feed(len, accepted).0,
            SessionStep::Result { raw } => self.get_result(raw).0,
            SessionStep::PartialResult { raw } => self,
            SessionStep::FinalResult { raw } => self.get_final_result(raw).0,
        }
    }
}

/// The view of what an operation hands back: of the value where it
/// succeeded, and the error as it is where it failed.
pub open spec fn outcome_view<T: View, E>(outcome: Result<T, E>) -> Result<T::V, E> {
    match outcome {
        Ok(value) => Ok(value@),
        Err(e) => Err(e),
    }
}

impl<'m> View for VoskSession<'m> {
    type V = VoskSessionView;

    closed spec fn view(&self) -> VoskSessionView {
        VoskSessionView {
            model: self.model@,
            speaker: match self.speaker {
                Some(speaker) => Some(speaker@),
                None => None,
            },
            handle: self.handle,
            freq: self.freq,
            state: self.state,
            boundary: self.boundary,
            samples: self.samples,
        }
    }
}

impl<'m> VoskSession<'m> {
    #[verifier::type_invariant]
    spec fn well_formed(self) -> bool {
        self@.valid()
    }

    /// The engine's handle for this session.
    pub fn handle(&self) -> (handle: usize)
        ensures
            handle == self@.handle,
            handle != 0,
    {
        proof {
            use_type_invariant(self);
        }
        self.handle
    }

    /// The model that the session was made from.
    pub fn model(&self) -> (model: &'m VoskModel)
        ensures
            model@ == self@.model,
    {
        self.model
    }

    /// The speaker model that the session identifies speakers with, if any.
    pub fn speaker(&self) -> (speaker: Option<&'m SpeakerModel>)
        ensures
            match speaker {
                Some(s) => self@.speaker == Some(s@),
                None => self@.speaker is None,
            },
    {
        self.speaker
    }

    /// The sampling frequency that the session was made with, as the bits of
    /// a single.
    pub fn sampling_freq(&self) -> (freq: u32)
        ensures
            freq == self@.freq,
    {
        self.freq
    }

    /// Where the session stands in its life.
    pub fn state(&self) -> (state: SessionState)
        ensures
            state == self@.state,
            self@.valid(),
    {
        proof {
            use_type_invariant(self);
        }
        self.state
    }

    /// Whether audio may be fed: the engine is to be given samples only where
    /// this holds.
    pub fn is_listening(&self) -> (listening: bool)
        ensures
            listening == (self@.state == SessionState::Listening),
    {
        match self.state {
            SessionState::Listening => true,
            SessionState::Finalized => false,
        }
    }

    /// Whether an utterance has closed and its result is there to be taken.
    /// Where it has not, the partial result is the one to ask for.
    pub fn utterance_ready(&self) -> (ready: bool)
        ensures
            ready == self@.boundary,
    {
        self.boundary
    }

    /// How many samples have been fed, counted up to `u64::MAX`.
    pub fn samples(&self) -> (samples: u64)
        ensures
            samples == self@.samples,
    {
        self.samples
    }

    /// Gives the session up, in whichever state it is, and hands out the
    /// handle that the engine is to free.
    pub fn release(self) -> (handle: usize)
        ensures
            handle == self@.handle,
            handle != 0,
    {
        proof {
            use_type_invariant(&self);
        }
        self.handle
    }
}

impl VoskModel {
    /// Works out what the engine is to be asked for a session of this model
    /// with the configuration `config`.
    ///
    /// The model's handle and the frequency go into every request; a grammar
    /// goes in as a JSON array of its phrases, a speaker model as its handle.
    /// Fails only where the phrases of a grammar cannot be written as JSON.
    pub fn session_request(&self, config: &VoskSessionConfig) -> (res: Result<
        SessionRequest,
        SessionCreateError,
    >)
        ensures
            match res {
                Ok(request) => session_request_of(self@, config@) == Some(request@),
                Err(_) => session_request_of(self@, config@) is None,
            },
    {
        let model = self.handle();
        let sampling_freq = config.sampling_freq();
        match config.variant() {
            SessionVariant::Default => Ok(
                SessionRequest { model, sampling_freq, grammar: None, speaker: None },
            ),
            SessionVariant::GrammarConstrained(phrases) => match phrases_to_json(phrases) {
                Some(text) => Ok(
                    SessionRequest { model, sampling_freq, grammar: Some(text), speaker: None },
                ),
                None => Err(SessionCreateError),
            },
            SessionVariant::SpeakerEnabled(speaker) => Ok(
                SessionRequest {
                    model,
                    sampling_freq,
                    grammar: None,
                    speaker: Some(speaker.handle()),
                },
            ),
        }
    }

    /// Makes the session that the engine created for `config`.
    ///
    /// `handle` is what the engine returned to the request that
    /// `session_request` worked out; a null handle is the engine's way of
    /// saying that it turned the request down. The session starts out
    /// listening, with no sample fed.
    pub fn create_session<'m>(&'m self, config: VoskSessionConfig<'m>, handle: usize) -> (res:
        Result<VoskSession<'m>, SessionCreateError>)
        ensures
            match res {
                Ok(session) => {
                    &&& handle != 0
                    &&& session@ == VoskSessionView::created(self@, config@, handle)
                    &&& session@.valid()
                },
                Err(_) => handle == 0,
            },
    {
        if handle == 0 {
            return Err(SessionCreateError);
        }
        let freq = config.sampling_freq();
        let speaker = match config.variant() {
            SessionVariant::SpeakerEnabled(speaker) => Some(*speaker),
            _ => None,
        };
        Ok(
            VoskSession {
                model: self,
                speaker,
                handle,
                freq,
                state: SessionState::Listening,
                boundary: false,
                samples: 0,
            },
        )
    }

    /// Records that `data` was fed to the session and that the engine replied
    /// `accepted`, and tells whether an utterance has come to its end.
    ///
    /// Fails on a finalized session, which is left as it is: the engine must
    /// not be given audio for it (see `VoskSession::is_listening`).
    pub fn feed(&self, sess: &mut VoskSession, data: &[i16], accepted: i32) -> (res: Result<
        bool,
        InvalidStateError,
    >)
        ensures
            (final(sess)@, res) == old(sess)@.feed(data@.len(), accepted),
    {
        proof {
            use_type_invariant(&*sess);
        }
        match sess.state {
            SessionState::Finalized => Err(InvalidStateError),
            SessionState::Listening => {
                let len = data.len() as u64;
                let boundary = accepted == 1;
                sess.samples = if u64::MAX - sess.samples >= len {
                    sess.samples + len
                } else {
                    u64::MAX
                };
                sess.boundary = boundary;
                Ok(boundary)
            },
        }
    }

    /// Reads the result of the utterance that has closed out of the engine's
    /// reply `raw`.
    ///
    /// Fails with `InvalidState` on a finalized session, and with
    /// `DecodeProtocol` where the reply is not a final result.
    pub fn get_result(&self, sess: &mut VoskSession, raw: &[u8]) -> (res: Result<
        TranscriptionResult,
        SessionError,
    >)
        ensures
            (final(sess)@, outcome_view(res)) == old(sess)@.get_result(raw@),
    {
        proof {
            use_type_invariant(&*sess);
        }
        match sess.state {
            SessionState::Finalized => Err(SessionError::InvalidState(InvalidStateError)),
            SessionState::Listening => {
                sess.boundary = false;
                match decode_final(raw) {
                    Ok(result) => Ok(result),
                    Err(e) => Err(SessionError::DecodeProtocol(e)),
                }
            },
        }
    }

    /// Reads the hypothesis for the utterance that is going on out of the
    /// engine's reply `raw`. The session is not touched.
    ///
    /// Fails with `InvalidState` on a finalized session, and with
    /// `DecodeProtocol` where the reply is not a partial result.
    pub fn get_partial_result(&self, sess: &VoskSession, raw: &[u8]) -> (res: Result<
        TranscriptionPartialResult,
        SessionError,
    >)
        ensures
            outcome_view(res) == sess@.get_partial_result(raw@),
    {
        match sess.state {
            SessionState::Finalized => Err(SessionError::InvalidState(InvalidStateError)),
            SessionState::Listening => match decode_partial(raw) {
                Ok(partial) => Ok(partial),
                Err(e) => Err(SessionError::DecodeProtocol(e)),
            },
        }
    }

    /// Reads the final result out of the engine's reply `raw` and finalizes
    /// the session.
    ///
    /// Fails where the reply is not a final result; the session is finalized
    /// all the same, for the engine has flushed it.
    pub fn get_final_result(&self, sess: &mut VoskSession, raw: &[u8]) -> (res: Result<
        TranscriptionResult,
        DecodeProtocolError,
    >)
        ensures
            (final(sess)@, outcome_view(res)) == old(sess)@.get_final_result(raw@),
    {
        proof {
            use_type_invariant(&*sess);
        }
        sess.boundary = false;
        sess.state = SessionState::Finalized;
        decode_final(raw)
    }
}

/// What goes to the engine is what the configuration says: the model and the
/// frequency always, and then nothing more, or a speaker model, or a text in
/// which a JSON reader finds the phrases of the grammar and no others. Only a
/// grammar can stand in the way of a request.
pub proof fn lemma_request_follows_configuration(
    model: VoskModelView,
    config: VoskSessionConfigView,
)
    ensures
        match session_request_of(model, config) {
            Some(request) => {
                &&& request.model == model.handle
                &&& request.sampling_freq == config.freq
                &&& match config.variant {
                    SessionVariantView::Default => request.grammar is None
                        && request.speaker is None,
                    SessionVariantView::GrammarConstrained(phrases) => {
                        &&& request.speaker is None
                        &&& request.grammar matches Some(text)
                        &&& json_document(text) == Some(array_of_texts(phrases))
                    },
                    SessionVariantView::SpeakerEnabled(speaker) => request.grammar is None
                        && request.speaker == Some(speaker.handle),
                }
            },
            None => config.variant is GrammarConstrained,
        },
{
}

/// Looking at the partial result does not change what the next look gives:
/// with no step in between, and the engine giving the same reply, the answer
/// is the same.
pub proof fn lemma_partial_result_is_idempotent(
    session: VoskSessionView,
    raw: Seq<u8>,
    again: Seq<u8>,
)
    ensures
        session.after(SessionStep::PartialResult { raw }) == session,
        session.after(SessionStep::PartialResult { raw }).get_partial_result(again)
            == session.get_partial_result(again),
        session.after(SessionStep::PartialResult { raw }).get_partial_result(raw)
            == session.get_partial_result(raw),
{
}

/// Once the final result has been taken, audio is refused, and so are
/// requests for a result or a partial result.
pub proof fn lemma_final_result_closes(
    session: VoskSessionView,
    raw: Seq<u8>,
    len: nat,
    accepted: i32,
    later: Seq<u8>,
)
    ensures
        ({
            let closed = session.get_final_result(raw).0;
            &&& closed.state == SessionState::Finalized
            &&& closed.feed(len, accepted) == (closed, Err::<bool, _>(InvalidStateError))
            &&& closed.get_result(later) == (
                closed,
                Err::<TranscriptionResultView, _>(SessionError::InvalidState(InvalidStateError)),
            )
            &&& closed.get_partial_result(later) == Err::<TranscriptionPartialResultView, _>(
                SessionError::InvalidState(InvalidStateError),
            )
        }),
{
}

/// A finalized session is at its end: no step changes it.
pub proof fn lemma_finalized_is_terminal(session: VoskSessionView, step: SessionStep)
    requires
        session.valid(),
        session.state == SessionState::Finalized,
    ensures
        session.after(step) == session,
{
}

/// Every step of a session leaves it a session.
pub proof fn lemma_steps_keep_valid(session: VoskSessionView, step: SessionStep)
    requires
        session.valid(),
    ensures
        session.after(step).valid(),
{
}

/// No step changes which model, speaker model, handle or frequency a session
/// has: what sessions share is only ever read.
pub proof fn lemma_steps_keep_identity(session: VoskSessionView, step: SessionStep)
    ensures
        session.after(step).model == session.model,
        session.after(step).speaker == session.speaker,
        session.after(step).handle == session.handle,
        session.after(step).freq == session.freq,
{
}

/// In a family of sessions, a step of one leaves every other as it was, and
/// steps of two of them come to the same whichever is taken first.
pub proof fn lemma_sessions_do_not_interfere(
    sessions: Seq<VoskSessionView>,
    i: int,
    j: int,
    step_i: SessionStep,
    step_j: SessionStep,
)
    requires
        0 <= i < sessions.len(),
        0 <= j < sessions.len(),
        i != j,
    ensures
        sessions.update(i, sessions[i].after(step_i))[j] == sessions[j],
        sessions.update(i, sessions[i].after(step_i)).update(j, sessions[j].after(step_j))
            == sessions.update(j, sessions[j].after(step_j)).update(
            i,
            sessions[i].after(step_i),
        ),
{
    assert(sessions.update(i, sessions[i].after(step_i)).update(j, sessions[j].after(step_j))
        =~= sessions.update(j, sessions[j].after(step_j)).update(i, sessions[i].after(step_i)));
}

} // verus!
