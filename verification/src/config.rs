//! How a session is to be made: the sampling frequency of its audio and, at
//! most, one of a grammar and a speaker model.
//!
//! A sampling frequency is an IEEE-754 single, carried as its bit pattern (the
//! engine takes a single). A configuration is put together on a builder, and
//! `finish` hands out a configuration only where the parts make sense together.

use crate::error::ConfigError;
use crate::json::phrases_view;
use crate::speaker::{SpeakerModel, SpeakerModelView};
use vstd::prelude::*;

verus! {

/// The bit pattern of 16000.0, the sampling frequency of a new builder.
pub const DEFAULT_SAMPLING_FREQ: u32 = 0x467A_0000;

/// Whether the sign bit of a single is set.
pub open spec fn single_is_negative(bits: u32) -> bool {
    bits >> 31 == 1
}

/// The biased exponent of a single.
pub open spec fn single_exponent(bits: u32) -> u32 {
    (bits >> 23) & 0xff
}

/// The fraction bits of a single.
pub open spec fn single_fraction(bits: u32) -> u32 {
    bits & 0x7f_ffff
}

/// Whether a single is greater than zero: its sign is clear, and it is
/// neither a zero nor a NaN. The positive infinity counts.
pub open spec fn sampling_freq_valid(bits: u32) -> bool {
    &&& !single_is_negative(bits)
    &&& !(single_exponent(bits) == 0 && single_fraction(bits) == 0)
    &&& !(single_exponent(bits) == 0xff && single_fraction(bits) != 0)
}

/// The singles greater than zero are those whose bit patterns lie above that
/// of zero and up to that of the positive infinity.
pub proof fn lemma_sampling_freq_valid_range(bits: u32)
    ensures
        sampling_freq_valid(bits) <==> 0 < bits <= 0x7f80_0000,
{
    assert((0 < bits && bits <= 0x7f80_0000) <==> ({
        &&& !(bits >> 31 == 1)
        &&& !((bits >> 23) & 0xff == 0 && bits & 0x7f_ffff == 0)
        &&& !((bits >> 23) & 0xff == 0xff && bits & 0x7f_ffff != 0)
    })) by (bit_vector);
}

/// Tells whether a sampling frequency is greater than zero.
pub fn is_valid_sampling_freq(bits: u32) -> (valid: bool)
    ensures
        valid == sampling_freq_valid(bits),
{
    proof {
        lemma_sampling_freq_valid_range(bits);
    }
    0 < bits && bits <= 0x7f80_0000
}

/// What a session is specialised for.
#[derive(Debug, PartialEq, Eq)]
pub enum SessionVariant<'a> {
    /// The model's own vocabulary, and no speaker identification.
    Default,
    /// Only the given words and phrases are recognised.
    GrammarConstrained(Vec<String>),
    /// Speakers are identified with the given model.
    SpeakerEnabled(&'a SpeakerModel),
}

/// The mathematical value of a [`SessionVariant`].
pub enum SessionVariantView {
    Default,
    GrammarConstrained(Seq<Seq<char>>),
    SpeakerEnabled(SpeakerModelView),
}

impl<'a> View for SessionVariant<'a> {
    type V = SessionVariantView;

    open spec fn view(&self) -> SessionVariantView {
        match self {
            SessionVariant::Default => SessionVariantView::Default,
            SessionVariant::GrammarConstrained(phrases) => SessionVariantView::GrammarConstrained(
                phrases_view(phrases@),
            ),
            SessionVariant::SpeakerEnabled(speaker) => SessionVariantView::SpeakerEnabled(
                speaker@,
            ),
        }
    }
}

/// The mathematical value of a [`VoskSessionConfig`].
pub struct VoskSessionConfigView {
    /// The sampling frequency, as the bits of a single.
    pub freq: u32,
    /// What the session is specialised for.
    pub variant: SessionVariantView,
}

impl VoskSessionConfigView {
    /// What every configuration satisfies: the frequency is greater than
    /// zero, and a grammar has at least one phrase.
    pub open spec fn valid(self) -> bool {
        &&& sampling_freq_valid(self.freq)
        &&& self.variant matches SessionVariantView::GrammarConstrained(phrases)
            ==> phrases.len() > 0
    }
}

/// The mathematical value of a [`VoskSessionConfigBuilder`].
pub struct VoskSessionConfigBuilderView {
    /// The speaker model asked for, if any.
    pub speaker: Option<SpeakerModelView>,
    /// The grammar asked for, if any.
    pub grammar: Option<Seq<Seq<char>>>,
    /// The sampling frequency, as the bits of a single.
    pub freq: u32,
}

impl VoskSessionConfigBuilderView {
    /// What `finish` makes of a builder.
    ///
    /// A grammar together with a speaker model is a conflict, whatever the
    /// frequency is. Failing that, the frequency has to be greater than zero.
    pub open spec fn finish(self) -> Result<VoskSessionConfigView, ConfigError> {
        if self.grammar is Some && self.speaker is Some {
            Err(ConfigError::ConflictingOptions)
        } else if !sampling_freq_valid(self.freq) {
            Err(ConfigError::InvalidSamplingFrequency)
        } else {
            Ok(
                VoskSessionConfigView {
                    freq: self.freq,
                    variant: match (self.grammar, self.speaker) {
                        (Some(phrases), _) => SessionVariantView::GrammarConstrained(phrases),
                        (None, Some(speaker)) => SessionVariantView::SpeakerEnabled(speaker),
                        (None, None) => SessionVariantView::Default,
                    },
                },
            )
        }
    }

    /// A builder as `finish` leaves it behind after handing out a
    /// configuration: the options are gone, the frequency stays.
    pub open spec fn spent(self) -> VoskSessionConfigBuilderView {
        VoskSessionConfigBuilderView { speaker: None, grammar: None, freq: self.freq }
    }
}

/// Collects the parts of a configuration.
pub struct VoskSessionConfigBuilder<'a> {
    speaker: Option<&'a SpeakerModel>,
    grammar: Option<Vec<String>>,
    freq: u32,
}

impl<'a> View for VoskSessionConfigBuilder<'a> {
    type V = VoskSessionConfigBuilderView;

    closed spec fn view(&self) -> VoskSessionConfigBuilderView {
        VoskSessionConfigBuilderView {
            speaker: match self.speaker {
                Some(speaker) => Some(speaker@),
                None => None,
            },
            grammar: match self.grammar {
                Some(phrases) => Some(phrases_view(phrases@)),
                None => None,
            },
            freq: self.freq,
        }
    }
}

impl<'a> VoskSessionConfigBuilder<'a> {
    #[verifier::type_invariant]
    spec fn grammar_has_phrases(self) -> bool {
        self.grammar matches Some(phrases) ==> phrases@.len() > 0
    }

    /// A builder with the default frequency and no option set.
    pub fn new() -> (builder: VoskSessionConfigBuilder<'a>)
        ensures
            builder@ == (VoskSessionConfigBuilderView {
                speaker: None,
                grammar: None,
                freq: DEFAULT_SAMPLING_FREQ,
            }),
    {
        VoskSessionConfigBuilder { speaker: None, grammar: None, freq: DEFAULT_SAMPLING_FREQ }
    }

    /// Asks for speaker identification with `speaker`.
    pub fn spk_root(&mut self, speaker: &'a SpeakerModel) -> (builder: &mut Self)
        ensures
            builder@ == (VoskSessionConfigBuilderView { speaker: Some(speaker@), ..old(self)@ }),
            *final(self) == *final(builder),
    {
        proof {
            use_type_invariant(&*self);
        }
        self.speaker = Some(speaker);
        self
    }

    /// Sets the sampling frequency, given as the bits of a single. Any value
    /// is stored; `finish` is where a frequency that is not greater than zero
    /// is turned down.
    pub fn sampling_freq(&mut self, freq: u32) -> (builder: &mut Self)
        ensures
            builder@ == (VoskSessionConfigBuilderView { freq, ..old(self)@ }),
            *final(self) == *final(builder),
    {
        proof {
            use_type_invariant(&*self);
        }
        self.freq = freq;
        self
    }

    /// Asks for recognition of the given words and phrases only.
    pub fn grammar(&mut self, phrases: Vec<String>) -> (builder: &mut Self)
        requires
            phrases@.len() > 0,
        ensures
            builder@ == (VoskSessionConfigBuilderView {
                grammar: Some(phrases_view(phrases@)),
                ..old(self)@
            }),
            *final(self) == *final(builder),
    {
        self.grammar = Some(phrases);
        self
    }

    /// Checks the parts against each other and hands out the configuration.
    ///
    /// Fails with `ConflictingOptions` where a grammar and a speaker model
    /// were both asked for, and else with `InvalidSamplingFrequency` where the
    /// frequency is not greater than zero; the builder is then left as it
    /// was, to be put right. On success the options move into the
    /// configuration and the builder keeps its frequency only.
    pub fn finish(&mut self) -> (res: Result<VoskSessionConfig<'a>, ConfigError>)
        ensures
            match res {
                Ok(config) => {
                    &&& old(self)@.finish() == Ok::<_, ConfigError>(config@)
                    &&& final(self)@ == old(self)@.spent()
                },
                Err(e) => {
                    &&& old(self)@.finish() == Err::<VoskSessionConfigView, _>(e)
                    &&& final(self)@ == old(self)@
                },
            },
    {
        proof {
            use_type_invariant(&*self);
        }
        if self.grammar.is_some() && self.speaker.is_some() {
            return Err(ConfigError::ConflictingOptions);
        }
        if !is_valid_sampling_freq(self.freq) {
            return Err(ConfigError::InvalidSamplingFrequency);
        }
        let mut grammar: Option<Vec<String>> = None;
        core::mem::swap(&mut self.grammar, &mut grammar);
        let speaker = self.speaker;
        self.speaker = None;
        let variant = match (grammar, speaker) {
            (Some(phrases), _) => SessionVariant::GrammarConstrained(phrases),
            (None, Some(speaker)) => SessionVariant::SpeakerEnabled(speaker),
            (None, None) => SessionVariant::Default,
        };
        Ok(VoskSessionConfig { freq: self.freq, variant })
    }
}

/// How a session is to be made. Every value of this type has passed the
/// checks of `finish`.
#[derive(Debug, PartialEq, Eq)]
pub struct VoskSessionConfig<'a> {
    freq: u32,
    variant: SessionVariant<'a>,
}

impl<'a> View for VoskSessionConfig<'a> {
    type V = VoskSessionConfigView;

    closed spec fn view(&self) -> VoskSessionConfigView {
        VoskSessionConfigView { freq: self.freq, variant: self.variant@ }
    }
}

impl<'a> Default for VoskSessionConfig<'a> {
    /// The default frequency, and no grammar or speaker model.
    fn default() -> (config: VoskSessionConfig<'a>)
        ensures
            config@ == (VoskSessionConfigView {
                freq: DEFAULT_SAMPLING_FREQ,
                variant: SessionVariantView::Default,
            }),
    {
        proof {
            lemma_sampling_freq_valid_range(DEFAULT_SAMPLING_FREQ);
        }
        VoskSessionConfig { freq: DEFAULT_SAMPLING_FREQ, variant: SessionVariant::Default }
    }
}

impl<'a> VoskSessionConfig<'a> {
    #[verifier::type_invariant]
    spec fn well_formed(self) -> bool {
        &&& sampling_freq_valid(self.freq)
        &&& self.variant matches SessionVariant::GrammarConstrained(phrases)
            ==> phrases@.len() > 0
    }

    /// Starts a configuration.
    pub fn builder() -> (builder: VoskSessionConfigBuilder<'a>)
        ensures
            builder@ == (VoskSessionConfigBuilderView {
                speaker: None,
                grammar: None,
                freq: DEFAULT_SAMPLING_FREQ,
            }),
    {
        VoskSessionConfigBuilder::new()
    }

    /// The sampling frequency, as the bits of a single.
    pub fn sampling_freq(&self) -> (freq: u32)
        ensures
            freq == self@.freq,
            self@.valid(),
    {
        proof {
            use_type_invariant(self);
        }
        self.freq
    }

    /// What the session is specialised for.
    pub fn variant(&self) -> (variant: &SessionVariant<'a>)
        ensures
            variant@ == self@.variant,
            self@.valid(),
    {
        proof {
            use_type_invariant(self);
        }
        &self.variant
    }

    /// Turns speaker identification on. A configuration with a grammar is
    /// left as it is, and the conflict reported.
    pub fn set_spk_root(&mut self, speaker: &'a SpeakerModel) -> (res: Result<(), ConfigError>)
        ensures
            match res {
                Ok(_) => {
                    &&& !(old(self)@.variant is GrammarConstrained)
                    &&& final(self)@ == (VoskSessionConfigView {
                        variant: SessionVariantView::SpeakerEnabled(speaker@),
                        ..old(self)@
                    })
                },
                Err(e) => {
                    &&& e == ConfigError::ConflictingOptions
                    &&& old(self)@.variant is GrammarConstrained
                    &&& final(self)@ == old(self)@
                },
            },
    {
        proof {
            use_type_invariant(&*self);
        }
        match self.variant {
            SessionVariant::GrammarConstrained(_) => Err(ConfigError::ConflictingOptions),
            _ => {
                self.variant = SessionVariant::SpeakerEnabled(speaker);
                Ok(())
            },
        }
    }

    /// Constrains recognition to the given words and phrases. A
    /// configuration with a speaker model is left as it is, and the conflict
    /// reported.
    pub fn set_grammar(&mut self, phrases: Vec<String>) -> (res: Result<(), ConfigError>)
        requires
            phrases@.len() > 0,
        ensures
            match res {
                Ok(_) => {
                    &&& !(old(self)@.variant is SpeakerEnabled)
                    &&& final(self)@ == (VoskSessionConfigView {
                        variant: SessionVariantView::GrammarConstrained(phrases_view(phrases@)),
                        ..old(self)@
                    })
                },
                Err(e) => {
                    &&& e == ConfigError::ConflictingOptions
                    &&& old(self)@.variant is SpeakerEnabled
                    &&& final(self)@ == old(self)@
                },
            },
    {
        proof {
            use_type_invariant(&*self);
        }
        match self.variant {
            SessionVariant::SpeakerEnabled(_) => Err(ConfigError::ConflictingOptions),
            _ => {
                self.variant = SessionVariant::GrammarConstrained(phrases);
                Ok(())
            },
        }
    }

    /// Changes the sampling frequency. One that is not greater than zero is
    /// turned down, and the configuration left as it is.
    pub fn set_freq(&mut self, freq: u32) -> (res: Result<(), ConfigError>)
        ensures
            match res {
                Ok(_) => {
                    &&& sampling_freq_valid(freq)
                    &&& final(self)@ == (VoskSessionConfigView { freq, ..old(self)@ })
                },
                Err(e) => {
                    &&& e == ConfigError::InvalidSamplingFrequency
                    &&& !sampling_freq_valid(freq)
                    &&& final(self)@ == old(self)@
                },
            },
    {
        proof {
            use_type_invariant(&*self);
        }
        if is_valid_sampling_freq(freq) {
            self.freq = freq;
            Ok(())
        } else {
            Err(ConfigError::InvalidSamplingFrequency)
        }
    }
}

/// A grammar together with a speaker model never makes a configuration; with
/// neither, a frequency greater than zero makes the default one.
pub proof fn lemma_finish_conflict_and_default(builder: VoskSessionConfigBuilderView)
    ensures
        builder.grammar is Some && builder.speaker is Some
            ==> builder.finish() == Err::<VoskSessionConfigView, _>(
                ConfigError::ConflictingOptions,
            ),
        builder.grammar is None && builder.speaker is None && sampling_freq_valid(builder.freq)
            ==> builder.finish() == Ok::<_, ConfigError>(
                VoskSessionConfigView { freq: builder.freq, variant: SessionVariantView::Default },
            ),
{
}

/// A configuration that `finish` hands out is valid, given that the grammar
/// on the builder, if there is one, has a phrase.
pub proof fn lemma_finish_valid(builder: VoskSessionConfigBuilderView)
    requires
        builder.grammar matches Some(phrases) ==> phrases.len() > 0,
    ensures
        builder.finish() matches Ok(config) ==> config.valid(),
{
}

} // verus!
