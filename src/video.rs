//! Values shared by the video endpoints.
use vstd::prelude::*;

verus! {

/// What a presenter says: text to be spoken, or recorded audio.
#[derive(Clone, Debug)]
pub enum Script {
    Text {
        kind: String,
        subtitles: bool,
        provider: Option<TTSProvider>,
        input: String,
        ssml: bool,
    },
    Audio { kind: String, subtitles: bool, audio_url: String, reduce_noise: bool },
}

/// A text-to-speech provider and the voice it speaks with.
#[derive(Clone, Debug)]
pub enum TTSProvider {
    MicrosoftTTS { kind: String, voice_id: String },
    ElevenLabsTTS { kind: String, voice_id: String },
    AmazonTTS { kind: String, voice_id: String },
    AfflorithmicsTTS { kind: String, voice_id: String },
}

/// The text script a builder starts from: spoken by Microsoft's
/// `en-US-JennyNeural` voice, with no input yet.
pub open spec fn is_default_text_script(s: Script) -> bool {
    match s {
        Script::Text { kind, subtitles, provider, input, ssml } => {
            &&& kind@ == "text"@
            &&& !subtitles
            &&& provider matches Some(TTSProvider::MicrosoftTTS { kind: pk, voice_id })
            &&& pk@ == "microsoft"@
            &&& voice_id@ == "en-US-JennyNeural"@
            &&& input@ == ""@
            &&& !ssml
        },
        _ => false,
    }
}

/// The audio script a builder starts from, with no audio yet.
pub open spec fn is_default_audio_script(s: Script) -> bool {
    match s {
        Script::Audio { kind, subtitles, audio_url, reduce_noise } => {
            &&& kind@ == "audio"@
            &&& !subtitles
            &&& audio_url@ == ""@
            &&& !reduce_noise
        },
        _ => false,
    }
}

pub fn default_text_script() -> (s: Script)
    ensures
        is_default_text_script(s),
{
    Script::Text {
        kind: "text".to_string(),
        subtitles: false,
        provider: Some(
            TTSProvider::MicrosoftTTS {
                kind: "microsoft".to_string(),
                voice_id: "en-US-JennyNeural".to_string(),
            },
        ),
        input: "".to_string(),
        ssml: false,
    }
}

pub fn default_audio_script() -> (s: Script)
    ensures
        is_default_audio_script(s),
{
    Script::Audio {
        kind: "audio".to_string(),
        subtitles: false,
        audio_url: "".to_string(),
        reduce_noise: false,
    }
}

/// `after` is `before` with the text script's input replaced; any other
/// script is left as it is.
pub open spec fn input_set(before: Option<Script>, after: Option<Script>, input: Seq<char>) -> bool {
    match before {
        Some(Script::Text { kind, subtitles, provider, ssml, .. }) => after == Some(
            Script::Text { kind, subtitles, provider, input: after->Some_0->Text_input, ssml },
        ) && after->Some_0->Text_input@ == input,
        _ => after == before,
    }
}

/// `after` is `before` with the text script's SSML flag replaced.
pub open spec fn ssml_set(before: Option<Script>, after: Option<Script>, ssml: bool) -> bool {
    match before {
        Some(Script::Text { kind, subtitles, provider, input, .. }) => after == Some(
            Script::Text { kind, subtitles, provider, input, ssml },
        ),
        _ => after == before,
    }
}

/// `after` is `before` with the text script's subtitles flag replaced.
pub open spec fn subtitles_set(before: Option<Script>, after: Option<Script>, subtitles: bool) -> bool {
    match before {
        Some(Script::Text { kind, provider, input, ssml, .. }) => after == Some(
            Script::Text { kind, subtitles, provider, input, ssml },
        ),
        _ => after == before,
    }
}

/// `after` is `before` with the text script's provider replaced.
pub open spec fn provider_set(before: Option<Script>, after: Option<Script>, provider: TTSProvider) -> bool {
    match before {
        Some(Script::Text { kind, subtitles, input, ssml, .. }) => after == Some(
            Script::Text { kind, subtitles, provider: Some(provider), input, ssml },
        ),
        _ => after == before,
    }
}

/// `after` is `before` with the audio script's URL replaced.
pub open spec fn audio_url_set(before: Option<Script>, after: Option<Script>, audio_url: Seq<char>) -> bool {
    match before {
        Some(Script::Audio { kind, subtitles, reduce_noise, .. }) => after == Some(
            Script::Audio { kind, subtitles, audio_url: after->Some_0->Audio_audio_url, reduce_noise },
        ) && after->Some_0->Audio_audio_url@ == audio_url,
        _ => after == before,
    }
}

/// `after` is `before` with the audio script's noise reduction replaced.
pub open spec fn reduce_noise_set(before: Option<Script>, after: Option<Script>, reduce_noise: bool) -> bool {
    match before {
        Some(Script::Audio { kind, subtitles, audio_url, .. }) => after == Some(
            Script::Audio { kind, subtitles, audio_url, reduce_noise },
        ),
        _ => after == before,
    }
}

pub fn set_input(script: &mut Option<Script>, input: &str)
    ensures
        input_set(*old(script), *final(script), input@),
{
    match script {
        Some(Script::Text { input: i, .. }) => {
            *i = input.to_string();
        },
        _ => {},
    }
}

pub fn set_ssml(script: &mut Option<Script>, ssml: bool)
    ensures
        ssml_set(*old(script), *final(script), ssml),
{
    match script {
        Some(Script::Text { ssml: s, .. }) => {
            *s = ssml;
        },
        _ => {},
    }
}

pub fn set_subtitles(script: &mut Option<Script>, subtitles: bool)
    ensures
        subtitles_set(*old(script), *final(script), subtitles),
{
    match script {
        Some(Script::Text { subtitles: s, .. }) => {
            *s = subtitles;
        },
        _ => {},
    }
}

pub fn set_provider(script: &mut Option<Script>, provider: TTSProvider)
    ensures
        provider_set(*old(script), *final(script), provider),
{
    match script {
        Some(Script::Text { provider: p, .. }) => {
            *p = Some(provider);
        },
        _ => {},
    }
}

pub fn set_audio_url(script: &mut Option<Script>, audio_url: &str)
    ensures
        audio_url_set(*old(script), *final(script), audio_url@),
{
    match script {
        Some(Script::Audio { audio_url: a, .. }) => {
            *a = audio_url.to_string();
        },
        _ => {},
    }
}

pub fn set_reduce_noise(script: &mut Option<Script>, reduce_noise: bool)
    ensures
        reduce_noise_set(*old(script), *final(script), reduce_noise),
{
    match script {
        Some(Script::Audio { reduce_noise: r, .. }) => {
            *r = reduce_noise;
        },
        _ => {},
    }
}

/// `s` holds a text equal to `t`.
pub open spec fn holds_text(s: Option<String>, t: Seq<char>) -> bool {
    s matches Some(v) && v@ == t
}

/// The text that an optional field stands for: empty when it is unset.
pub open spec fn text_or_empty(s: Option<String>) -> Seq<char> {
    match s {
        Some(v) => v@,
        None => Seq::empty(),
    }
}

pub fn string_or_empty(s: Option<String>) -> (r: String)
    ensures
        r@ == text_or_empty(s),
{
    match s {
        Some(v) => v,
        None => String::new(),
    }
}

/// A driver from the service's bank of motions.
#[derive(Clone, Copy, Debug, PartialEq, Eq, Structural)]
pub enum Driver {
    LivelyDriver01,
    LivelyDriver02,
    LivelyDriver03,
    LivelyDriver04,
    LivelyDriver05,
    LivelyDriver06,
    SubtleDriver01,
    SubtleDriver02,
    SubtleDriver03,
    SubtleDriver04,
}

impl Driver {
    pub open spec fn spec_uri(self) -> Seq<char> {
        match self {
            Driver::LivelyDriver01 => "bank://lively/driver-01"@,
            Driver::LivelyDriver02 => "bank://lively/driver-02"@,
            Driver::LivelyDriver03 => "bank://lively/driver-03"@,
            Driver::LivelyDriver04 => "bank://lively/driver-04"@,
            Driver::LivelyDriver05 => "bank://lively/driver-05"@,
            Driver::LivelyDriver06 => "bank://lively/driver-06"@,
            Driver::SubtleDriver01 => "bank://subtle/driver-01"@,
            Driver::SubtleDriver02 => "bank://subtle/driver-02"@,
            Driver::SubtleDriver03 => "bank://subtle/driver-03"@,
            Driver::SubtleDriver04 => "bank://subtle/driver-04"@,
        }
    }

    /// The driver's URI on the wire.
    pub fn uri(&self) -> (r: &'static str)
        ensures
            r@ == self.spec_uri(),
    {
        match self {
            Driver::LivelyDriver01 => "bank://lively/driver-01",
            Driver::LivelyDriver02 => "bank://lively/driver-02",
            Driver::LivelyDriver03 => "bank://lively/driver-03",
            Driver::LivelyDriver04 => "bank://lively/driver-04",
            Driver::LivelyDriver05 => "bank://lively/driver-05",
            Driver::LivelyDriver06 => "bank://lively/driver-06",
            Driver::SubtleDriver01 => "bank://subtle/driver-01",
            Driver::SubtleDriver02 => "bank://subtle/driver-02",
            Driver::SubtleDriver03 => "bank://subtle/driver-03",
            Driver::SubtleDriver04 => "bank://subtle/driver-04",
        }
    }
}

/// A logo laid over the video, at a position in pixels.
#[derive(Clone, Debug)]
pub struct Logo {
    pub url: String,
    pub position: Vec<u32>,
}

/// Whether a detected face overlaps the image's edge.
#[derive(Clone, Copy, Debug, PartialEq, Eq, Structural)]
pub enum Overlap {
    No,
    Partial,
    Yes,
    Unknown,
}

impl Overlap {
    pub open spec fn spec_wire_name(self) -> Seq<char> {
        match self {
            Overlap::No => "NO"@,
            Overlap::Partial => "PARTIAL"@,
            Overlap::Yes => "YES"@,
            Overlap::Unknown => "UNKNOWN"@,
        }
    }

    /// The value's name on the wire.
    pub fn wire_name(&self) -> (r: &'static str)
        ensures
            r@ == self.spec_wire_name(),
    {
        match self {
            Overlap::No => "NO",
            Overlap::Partial => "PARTIAL",
            Overlap::Yes => "YES",
            Overlap::Unknown => "UNKNOWN",
        }
    }
}

} // verus!
