//! The audio formats the service can produce, the containers and qualities
//! by which a caller can choose one, the voices' roles, and how a caller
//! authenticates.

use vstd::pervasive::unreached;
use vstd::prelude::*;
use vstd::string::StringExecFns;
use crate::text::{signed_decimal, signed_decimal_string, str_eq};

verus! {

/// The role a voice plays.
#[non_exhaustive]
#[derive(Clone, Copy, Debug, PartialEq, Eq, Structural)]
pub enum Role {
    Girl,
    Boy,
    YoungAdultFemale,
    YoungAdultMale,
    OlderAdultFemale,
    OlderAdultMale,
    SeniorFemale,
    SeniorMale,
}

impl Role {
    /// The role's name as the service knows it.
    pub open spec fn name(self) -> Seq<char> {
        match self {
            Role::Girl => "Girl"@,
            Role::Boy => "Boy"@,
            Role::YoungAdultFemale => "YoungAdultFemale"@,
            Role::YoungAdultMale => "YoungAdultMale"@,
            Role::OlderAdultFemale => "OlderAdultFemale"@,
            Role::OlderAdultMale => "OlderAdultMale"@,
            Role::SeniorFemale => "SeniorFemale"@,
            Role::SeniorMale => "SeniorMale"@,
        }
    }

    /// The role's name as the service knows it.
    pub fn as_str(&self) -> (r: &'static str)
        ensures
            r@ == self.name(),
    {
        match self {
            Role::Girl => "Girl",
            Role::Boy => "Boy",
            Role::YoungAdultFemale => "YoungAdultFemale",
            Role::YoungAdultMale => "YoungAdultMale",
            Role::OlderAdultFemale => "OlderAdultFemale",
            Role::OlderAdultMale => "OlderAdultMale",
            Role::SeniorFemale => "SeniorFemale",
            Role::SeniorMale => "SeniorMale",
        }
    }
}

/// An audio format that the service can be asked for.
#[non_exhaustive]
#[derive(Clone, Copy, Debug, PartialEq, Eq, Structural)]
pub enum AudioFormat {
    AmrWb16000Hz,
    Audio16Khz128KBitRateMonoMp3,
    Audio16Khz16Bit32KbpsMonoOpus,
    Audio16Khz32KBitRateMonoMp3,
    Audio16Khz64KBitRateMonoMp3,
    Audio24Khz160KBitRateMonoMp3,
    Audio24Khz16Bit24KbpsMonoOpus,
    Audio24Khz16Bit48KbpsMonoOpus,
    Audio24Khz48KBitRateMonoMp3,
    Audio24Khz96KBitRateMonoMp3,
    Audio48Khz192KBitRateMonoMp3,
    Audio48Khz96KBitRateMonoMp3,
    Ogg16Khz16BitMonoOpus,
    Ogg24Khz16BitMonoOpus,
    Ogg48Khz16BitMonoOpus,
    Raw16Khz16BitMonoPcm,
    Raw16Khz16BitMonoTrueSilk,
    Raw22050Hz16BitMonoPcm,
    Raw24Khz16BitMonoPcm,
    Raw24Khz16BitMonoTrueSilk,
    Raw44100Hz16BitMonoPcm,
    Raw48Khz16BitMonoPcm,
    Raw8Khz16BitMonoPcm,
    Raw8Khz8BitMonoALaw,
    Raw8Khz8BitMonoMULaw,
    Riff16Khz16BitMonoPcm,
    Riff22050Hz16BitMonoPcm,
    Riff24Khz16BitMonoPcm,
    Riff44100Hz16BitMonoPcm,
    Riff48Khz16BitMonoPcm,
    Riff8Khz16BitMonoPcm,
    Riff8Khz8BitMonoALaw,
    Riff8Khz8BitMonoMULaw,
    Webm16Khz16BitMonoOpus,
    Webm24Khz16Bit24KbpsMonoOpus,
    Webm24Khz16BitMonoOpus,
}

/// How a caller reaches the service and proves who they are.
#[derive(Clone, Debug)]
pub struct AuthOptions {
    /// The address of the service.
    pub endpoint: String,
    /// A bearer token, sent in the query of the address.
    pub token: Option<String>,
    /// A subscription key, sent as a header.
    pub key: Option<String>,
    /// Further headers, in the order in which they are sent.
    pub headers: Vec<(String, String)>,
    /// The address of a proxy to connect through.
    pub proxy: Option<String>,
}

/// The outer form in which audio is delivered.
#[derive(Clone, Copy, Debug, PartialEq, Eq, Structural)]
pub enum Container {
    Wav,
    Mp3,
    Ogg,
    Webm,
}

/// Why no format was found for a container and a quality.
#[derive(Clone, Debug, PartialEq, Eq)]
pub enum FormatError {
    /// No container of this name is known.
    UnknownContainer { container: String },
    /// The container has no format of this quality.
    InvalidQuality { container: String, quality: i8 },
}

/// A `FormatError` as mathematical values.
pub enum FormatErrorView {
    UnknownContainer { container: Seq<char> },
    InvalidQuality { container: Seq<char>, quality: i8 },
}

impl View for FormatError {
    type V = FormatErrorView;

    open spec fn view(&self) -> FormatErrorView {
        match self {
            FormatError::UnknownContainer { container } => FormatErrorView::UnknownContainer {
                container: container@,
            },
            FormatError::InvalidQuality { container, quality } => FormatErrorView::InvalidQuality {
                container: container@,
                quality: *quality,
            },
        }
    }
}

/// What a `FormatError` says of itself.
pub open spec fn format_error_text(e: FormatErrorView) -> Seq<char> {
    match e {
        FormatErrorView::UnknownContainer { container } =>
            "No quality map found for container: "@ + container
                + ". Please check if the container is correct."@,
        FormatErrorView::InvalidQuality { container, quality } =>
            "Invalid quality found for container: "@ + container + " and quality: "@
                + signed_decimal(quality as int) + ". Please check if the quality is correct."@,
    }
}

impl FormatError {
    /// What the error says of itself.
    pub fn message(&self) -> (r: String)
        ensures
            r@ == format_error_text(self@),
    {
        match self {
            FormatError::UnknownContainer { container } => {
                let mut text = String::from_str("No quality map found for container: ");
                text.append(container.as_str());
                text.append(". Please check if the container is correct.");
                assert(text@ =~= format_error_text(self@));
                text
            },
            FormatError::InvalidQuality { container, quality } => {
                let mut text = String::from_str("Invalid quality found for container: ");
                text.append(container.as_str());
                text.append(" and quality: ");
                text.append(signed_decimal_string(*quality).as_str());
                text.append(". Please check if the quality is correct.");
                assert(text@ =~= format_error_text(self@));
                text
            },
        }
    }
}

impl Container {
    /// The container's name.
    pub open spec fn name(self) -> Seq<char> {
        match self {
            Container::Wav => "wav"@,
            Container::Mp3 => "mp3"@,
            Container::Ogg => "ogg"@,
            Container::Webm => "webm"@,
        }
    }

    /// The container of the given name, if there is one.
    pub open spec fn named(name: Seq<char>) -> Option<Container> {
        if name == "wav"@ {
            Some(Container::Wav)
        } else if name == "mp3"@ {
            Some(Container::Mp3)
        } else if name == "ogg"@ {
            Some(Container::Ogg)
        } else if name == "webm"@ {
            Some(Container::Webm)
        } else {
            None
        }
    }

    /// The least quality that the container offers.
    pub open spec fn least(self) -> int {
        match self {
            Container::Wav => -2,
            Container::Mp3 => -4,
            Container::Ogg => -1,
            Container::Webm => -1,
        }
    }

    /// The greatest quality that the container offers.
    pub open spec fn greatest(self) -> int {
        match self {
            Container::Wav => 1,
            Container::Mp3 => 3,
            Container::Ogg => 1,
            Container::Webm => 1,
        }
    }

    /// The table of formats: the format of the container at a quality, for
    /// each quality from the least to the greatest.
    pub open spec fn entry(self, quality: int) -> Option<AudioFormat> {
        match self {
            Container::Wav => {
                if quality == -2 {
                    Some(AudioFormat::Riff8Khz16BitMonoPcm)
                } else if quality == -1 {
                    Some(AudioFormat::Riff16Khz16BitMonoPcm)
                } else if quality == 0 {
                    Some(AudioFormat::Riff24Khz16BitMonoPcm)
                } else if quality == 1 {
                    Some(AudioFormat::Riff24Khz16BitMonoPcm)
                } else {
                    None
                }
            },
            Container::Mp3 => {
                if quality == -4 {
                    Some(AudioFormat::Audio16Khz32KBitRateMonoMp3)
                } else if quality == -3 {
                    Some(AudioFormat::Audio16Khz64KBitRateMonoMp3)
                } else if quality == -2 {
                    Some(AudioFormat::Audio16Khz128KBitRateMonoMp3)
                } else if quality == -1 {
                    Some(AudioFormat::Audio24Khz48KBitRateMonoMp3)
                } else if quality == 0 {
                    Some(AudioFormat::Audio24Khz96KBitRateMonoMp3)
                } else if quality == 1 {
                    Some(AudioFormat::Audio24Khz160KBitRateMonoMp3)
                } else if quality == 2 {
                    Some(AudioFormat::Audio48Khz96KBitRateMonoMp3)
                } else if quality == 3 {
                    Some(AudioFormat::Audio48Khz192KBitRateMonoMp3)
                } else {
                    None
                }
            },
            Container::Ogg => {
                if quality == -1 {
                    Some(AudioFormat::Ogg16Khz16BitMonoOpus)
                } else if quality == 0 {
                    Some(AudioFormat::Ogg24Khz16BitMonoOpus)
                } else if quality == 1 {
                    Some(AudioFormat::Ogg48Khz16BitMonoOpus)
                } else {
                    None
                }
            },
            Container::Webm => {
                if quality == -1 {
                    Some(AudioFormat::Webm16Khz16BitMonoOpus)
                } else if quality == 0 {
                    Some(AudioFormat::Webm24Khz16BitMonoOpus)
                } else if quality == 1 {
                    Some(AudioFormat::Webm24Khz16Bit24KbpsMonoOpus)
                } else {
                    None
                }
            },
        }
    }

    /// The quality of the container that is nearest to `quality`.
    pub open spec fn nearest(self, quality: int) -> int {
        if quality < self.least() {
            self.least()
        } else if quality > self.greatest() {
            self.greatest()
        } else {
            quality
        }
    }

    /// The container's name.
    pub fn as_str(&self) -> (r: &'static str)
        ensures
            r@ == self.name(),
    {
        match self {
            Container::Wav => "wav",
            Container::Mp3 => "mp3",
            Container::Ogg => "ogg",
            Container::Webm => "webm",
        }
    }

    /// The container of the given name, if there is one.
    pub fn from_name(name: &str) -> (r: Option<Container>)
        ensures
            r == Container::named(name@),
    {
        if str_eq(name, "wav") {
            Some(Container::Wav)
        } else if str_eq(name, "mp3") {
            Some(Container::Mp3)
        } else if str_eq(name, "ogg") {
            Some(Container::Ogg)
        } else if str_eq(name, "webm") {
            Some(Container::Webm)
        } else {
            None
        }
    }

    /// Every container.
    pub fn all() -> (r: Vec<Container>)
        ensures
            r@ == seq![Container::Wav, Container::Mp3, Container::Ogg, Container::Webm],
    {
        let mut containers: Vec<Container> = Vec::new();
        containers.push(Container::Wav);
        containers.push(Container::Mp3);
        containers.push(Container::Ogg);
        containers.push(Container::Webm);
        assert(containers@ =~= seq![
            Container::Wav,
            Container::Mp3,
            Container::Ogg,
            Container::Webm,
        ]);
        containers
    }

    /// The least and the greatest quality that the container offers.
    pub fn quality_range(&self) -> (r: (i8, i8))
        ensures
            r.0 == self.least(),
            r.1 == self.greatest(),
    {
        match self {
            Container::Wav => (-2, 1),
            Container::Mp3 => (-4, 3),
            Container::Ogg => (-1, 1),
            Container::Webm => (-1, 1),
        }
    }

    /// The format of the container at a quality, if the table holds one.
    pub fn format(&self, quality: i8) -> (r: Option<AudioFormat>)
        ensures
            r == self.entry(quality as int),
    {
        match self {
            Container::Wav => {
                if quality == -2 {
                    Some(AudioFormat::Riff8Khz16BitMonoPcm)
                } else if quality == -1 {
                    Some(AudioFormat::Riff16Khz16BitMonoPcm)
                } else if quality == 0 {
                    Some(AudioFormat::Riff24Khz16BitMonoPcm)
                } else if quality == 1 {
                    Some(AudioFormat::Riff24Khz16BitMonoPcm)
                } else {
                    None
                }
            },
            Container::Mp3 => {
                if quality == -4 {
                    Some(AudioFormat::Audio16Khz32KBitRateMonoMp3)
                } else if quality == -3 {
                    Some(AudioFormat::Audio16Khz64KBitRateMonoMp3)
                } else if quality == -2 {
                    Some(AudioFormat::Audio16Khz128KBitRateMonoMp3)
                } else if quality == -1 {
                    Some(AudioFormat::Audio24Khz48KBitRateMonoMp3)
                } else if quality == 0 {
                    Some(AudioFormat::Audio24Khz96KBitRateMonoMp3)
                } else if quality == 1 {
                    Some(AudioFormat::Audio24Khz160KBitRateMonoMp3)
                } else if quality == 2 {
                    Some(AudioFormat::Audio48Khz96KBitRateMonoMp3)
                } else if quality == 3 {
                    Some(AudioFormat::Audio48Khz192KBitRateMonoMp3)
                } else {
                    None
                }
            },
            Container::Ogg => {
                if quality == -1 {
                    Some(AudioFormat::Ogg16Khz16BitMonoOpus)
                } else if quality == 0 {
                    Some(AudioFormat::Ogg24Khz16BitMonoOpus)
                } else if quality == 1 {
                    Some(AudioFormat::Ogg48Khz16BitMonoOpus)
                } else {
                    None
                }
            },
            Container::Webm => {
                if quality == -1 {
                    Some(AudioFormat::Webm16Khz16BitMonoOpus)
                } else if quality == 0 {
                    Some(AudioFormat::Webm24Khz16BitMonoOpus)
                } else if quality == 1 {
                    Some(AudioFormat::Webm24Khz16Bit24KbpsMonoOpus)
                } else {
                    None
                }
            },
        }
    }
}

/// What asking for a container and a quality gives.
///
/// An unknown container is an error. A quality that the container's table
/// holds gives its format. Any other quality gives the format of the nearest
/// quality where that is asked for, and is an error where it is not.
pub open spec fn resolved_format(container: Seq<char>, quality: i8, use_closest: bool) -> Result<
    AudioFormat,
    FormatErrorView,
> {
    match Container::named(container) {
        None => Err(FormatErrorView::UnknownContainer { container }),
        Some(known) => match known.entry(quality as int) {
            Some(format) => Ok(format),
            None => if use_closest {
                Ok(known.entry(known.nearest(quality as int))->0)
            } else {
                Err(FormatErrorView::InvalidQuality { container, quality })
            },
        },
    }
}

/// What `from_container_and_quality` returned, as mathematical values.
pub open spec fn format_result_view(r: Result<AudioFormat, FormatError>) -> Result<
    AudioFormat,
    FormatErrorView,
> {
    match r {
        Ok(format) => Ok(format),
        Err(e) => Err(e@),
    }
}

impl AudioFormat {
    /// The format's name as the service knows it.
    pub open spec fn name(self) -> Seq<char> {
        match self {
            AudioFormat::AmrWb16000Hz => "amr-wb-16000hz"@,
            AudioFormat::Audio16Khz128KBitRateMonoMp3 => "audio-16khz-128kbitrate-mono-mp3"@,
            AudioFormat::Audio16Khz16Bit32KbpsMonoOpus => "audio-16khz-16bit-32kbps-mono-opus"@,
            AudioFormat::Audio16Khz32KBitRateMonoMp3 => "audio-16khz-32kbitrate-mono-mp3"@,
            AudioFormat::Audio16Khz64KBitRateMonoMp3 => "audio-16khz-64kbitrate-mono-mp3"@,
            AudioFormat::Audio24Khz160KBitRateMonoMp3 => "audio-24khz-160kbitrate-mono-mp3"@,
            AudioFormat::Audio24Khz16Bit24KbpsMonoOpus => "audio-24khz-16bit-24kbps-mono-opus"@,
            AudioFormat::Audio24Khz16Bit48KbpsMonoOpus => "audio-24khz-16bit-48kbps-mono-opus"@,
            AudioFormat::Audio24Khz48KBitRateMonoMp3 => "audio-24khz-48kbitrate-mono-mp3"@,
            AudioFormat::Audio24Khz96KBitRateMonoMp3 => "audio-24khz-96kbitrate-mono-mp3"@,
            AudioFormat::Audio48Khz192KBitRateMonoMp3 => "audio-48khz-192kbitrate-mono-mp3"@,
            AudioFormat::Audio48Khz96KBitRateMonoMp3 => "audio-48khz-96kbitrate-mono-mp3"@,
            AudioFormat::Ogg16Khz16BitMonoOpus => "ogg-16khz-16bit-mono-opus"@,
            AudioFormat::Ogg24Khz16BitMonoOpus => "ogg-24khz-16bit-mono-opus"@,
            AudioFormat::Ogg48Khz16BitMonoOpus => "ogg-48khz-16bit-mono-opus"@,
            AudioFormat::Raw16Khz16BitMonoPcm => "raw-16khz-16bit-mono-pcm"@,
            AudioFormat::Raw16Khz16BitMonoTrueSilk => "raw-16khz-16bit-mono-truesilk"@,
            AudioFormat::Raw22050Hz16BitMonoPcm => "raw-22050hz-16bit-mono-pcm"@,
            AudioFormat::Raw24Khz16BitMonoPcm => "raw-24khz-16bit-mono-pcm"@,
            AudioFormat::Raw24Khz16BitMonoTrueSilk => "raw-24khz-16bit-mono-truesilk"@,
            AudioFormat::Raw44100Hz16BitMonoPcm => "raw-44100hz-16bit-mono-pcm"@,
            AudioFormat::Raw48Khz16BitMonoPcm => "raw-48khz-16bit-mono-pcm"@,
            AudioFormat::Raw8Khz16BitMonoPcm => "raw-8khz-16bit-mono-pcm"@,
            AudioFormat::Raw8Khz8BitMonoALaw => "raw-8khz-8bit-mono-alaw"@,
            AudioFormat::Raw8Khz8BitMonoMULaw => "raw-8khz-8bit-mono-mulaw"@,
            AudioFormat::Riff16Khz16BitMonoPcm => "riff-16khz-16bit-mono-pcm"@,
            AudioFormat::Riff22050Hz16BitMonoPcm => "riff-22050hz-16bit-mono-pcm"@,
            AudioFormat::Riff24Khz16BitMonoPcm => "riff-24khz-16bit-mono-pcm"@,
            AudioFormat::Riff44100Hz16BitMonoPcm => "riff-44100hz-16bit-mono-pcm"@,
            AudioFormat::Riff48Khz16BitMonoPcm => "riff-48khz-16bit-mono-pcm"@,
            AudioFormat::Riff8Khz16BitMonoPcm => "riff-8khz-16bit-mono-pcm"@,
            AudioFormat::Riff8Khz8BitMonoALaw => "riff-8khz-8bit-mono-alow"@,
            AudioFormat::Riff8Khz8BitMonoMULaw => "riff-8khz-8bit-mono-mulaw"@,
            AudioFormat::Webm16Khz16BitMonoOpus => "webm-16khz-16bit-mono-opus"@,
            AudioFormat::Webm24Khz16Bit24KbpsMonoOpus => "webm-24khz-16bit-24kbps-mono-opus"@,
            AudioFormat::Webm24Khz16BitMonoOpus => "webm-24khz-16bit-mono-opus"@,
        }
    }

    /// Every format, in the order of their names.
    pub open spec fn every() -> Seq<AudioFormat> {
        seq![
            AudioFormat::AmrWb16000Hz,
            AudioFormat::Audio16Khz128KBitRateMonoMp3,
            AudioFormat::Audio16Khz16Bit32KbpsMonoOpus,
            AudioFormat::Audio16Khz32KBitRateMonoMp3,
            AudioFormat::Audio16Khz64KBitRateMonoMp3,
            AudioFormat::Audio24Khz160KBitRateMonoMp3,
            AudioFormat::Audio24Khz16Bit24KbpsMonoOpus,
            AudioFormat::Audio24Khz16Bit48KbpsMonoOpus,
            AudioFormat::Audio24Khz48KBitRateMonoMp3,
            AudioFormat::Audio24Khz96KBitRateMonoMp3,
            AudioFormat::Audio48Khz192KBitRateMonoMp3,
            AudioFormat::Audio48Khz96KBitRateMonoMp3,
            AudioFormat::Ogg16Khz16BitMonoOpus,
            AudioFormat::Ogg24Khz16BitMonoOpus,
            AudioFormat::Ogg48Khz16BitMonoOpus,
            AudioFormat::Raw16Khz16BitMonoPcm,
            AudioFormat::Raw16Khz16BitMonoTrueSilk,
            AudioFormat::Raw22050Hz16BitMonoPcm,
            AudioFormat::Raw24Khz16BitMonoPcm,
            AudioFormat::Raw24Khz16BitMonoTrueSilk,
            AudioFormat::Raw44100Hz16BitMonoPcm,
            AudioFormat::Raw48Khz16BitMonoPcm,
            AudioFormat::Raw8Khz16BitMonoPcm,
            AudioFormat::Raw8Khz8BitMonoALaw,
            AudioFormat::Raw8Khz8BitMonoMULaw,
            AudioFormat::Riff16Khz16BitMonoPcm,
            AudioFormat::Riff22050Hz16BitMonoPcm,
            AudioFormat::Riff24Khz16BitMonoPcm,
            AudioFormat::Riff44100Hz16BitMonoPcm,
            AudioFormat::Riff48Khz16BitMonoPcm,
            AudioFormat::Riff8Khz16BitMonoPcm,
            AudioFormat::Riff8Khz8BitMonoALaw,
            AudioFormat::Riff8Khz8BitMonoMULaw,
            AudioFormat::Webm16Khz16BitMonoOpus,
            AudioFormat::Webm24Khz16Bit24KbpsMonoOpus,
            AudioFormat::Webm24Khz16BitMonoOpus,
        ]
    }

    /// The format's name as the service knows it.
    pub fn as_str(&self) -> (r: &'static str)
        ensures
            r@ == self.name(),
    {
        match self {
            AudioFormat::AmrWb16000Hz => "amr-wb-16000hz",
            AudioFormat::Audio16Khz128KBitRateMonoMp3 => "audio-16khz-128kbitrate-mono-mp3",
            AudioFormat::Audio16Khz16Bit32KbpsMonoOpus => "audio-16khz-16bit-32kbps-mono-opus",
            AudioFormat::Audio16Khz32KBitRateMonoMp3 => "audio-16khz-32kbitrate-mono-mp3",
            AudioFormat::Audio16Khz64KBitRateMonoMp3 => "audio-16khz-64kbitrate-mono-mp3",
            AudioFormat::Audio24Khz160KBitRateMonoMp3 => "audio-24khz-160kbitrate-mono-mp3",
            AudioFormat::Audio24Khz16Bit24KbpsMonoOpus => "audio-24khz-16bit-24kbps-mono-opus",
            AudioFormat::Audio24Khz16Bit48KbpsMonoOpus => "audio-24khz-16bit-48kbps-mono-opus",
            AudioFormat::Audio24Khz48KBitRateMonoMp3 => "audio-24khz-48kbitrate-mono-mp3",
            AudioFormat::Audio24Khz96KBitRateMonoMp3 => "audio-24khz-96kbitrate-mono-mp3",
            AudioFormat::Audio48Khz192KBitRateMonoMp3 => "audio-48khz-192kbitrate-mono-mp3",
            AudioFormat::Audio48Khz96KBitRateMonoMp3 => "audio-48khz-96kbitrate-mono-mp3",
            AudioFormat::Ogg16Khz16BitMonoOpus => "ogg-16khz-16bit-mono-opus",
            AudioFormat::Ogg24Khz16BitMonoOpus => "ogg-24khz-16bit-mono-opus",
            AudioFormat::Ogg48Khz16BitMonoOpus => "ogg-48khz-16bit-mono-opus",
            AudioFormat::Raw16Khz16BitMonoPcm => "raw-16khz-16bit-mono-pcm",
            AudioFormat::Raw16Khz16BitMonoTrueSilk => "raw-16khz-16bit-mono-truesilk",
            AudioFormat::Raw22050Hz16BitMonoPcm => "raw-22050hz-16bit-mono-pcm",
            AudioFormat::Raw24Khz16BitMonoPcm => "raw-24khz-16bit-mono-pcm",
            AudioFormat::Raw24Khz16BitMonoTrueSilk => "raw-24khz-16bit-mono-truesilk",
            AudioFormat::Raw44100Hz16BitMonoPcm => "raw-44100hz-16bit-mono-pcm",
            AudioFormat::Raw48Khz16BitMonoPcm => "raw-48khz-16bit-mono-pcm",
            AudioFormat::Raw8Khz16BitMonoPcm => "raw-8khz-16bit-mono-pcm",
            AudioFormat::Raw8Khz8BitMonoALaw => "raw-8khz-8bit-mono-alaw",
            AudioFormat::Raw8Khz8BitMonoMULaw => "raw-8khz-8bit-mono-mulaw",
            AudioFormat::Riff16Khz16BitMonoPcm => "riff-16khz-16bit-mono-pcm",
            AudioFormat::Riff22050Hz16BitMonoPcm => "riff-22050hz-16bit-mono-pcm",
            AudioFormat::Riff24Khz16BitMonoPcm => "riff-24khz-16bit-mono-pcm",
            AudioFormat::Riff44100Hz16BitMonoPcm => "riff-44100hz-16bit-mono-pcm",
            AudioFormat::Riff48Khz16BitMonoPcm => "riff-48khz-16bit-mono-pcm",
            AudioFormat::Riff8Khz16BitMonoPcm => "riff-8khz-16bit-mono-pcm",
            AudioFormat::Riff8Khz8BitMonoALaw => "riff-8khz-8bit-mono-alow",
            AudioFormat::Riff8Khz8BitMonoMULaw => "riff-8khz-8bit-mono-mulaw",
            AudioFormat::Webm16Khz16BitMonoOpus => "webm-16khz-16bit-mono-opus",
            AudioFormat::Webm24Khz16Bit24KbpsMonoOpus => "webm-24khz-16bit-24kbps-mono-opus",
            AudioFormat::Webm24Khz16BitMonoOpus => "webm-24khz-16bit-mono-opus",
        }
    }

    /// Every format, in the order of their names.
    pub fn all() -> (r: Vec<AudioFormat>)
        ensures
            r@ == Self::every(),
    {
        let mut formats: Vec<AudioFormat> = Vec::new();
        formats.push(AudioFormat::AmrWb16000Hz);
        formats.push(AudioFormat::Audio16Khz128KBitRateMonoMp3);
        formats.push(AudioFormat::Audio16Khz16Bit32KbpsMonoOpus);
        formats.push(AudioFormat::Audio16Khz32KBitRateMonoMp3);
        formats.push(AudioFormat::Audio16Khz64KBitRateMonoMp3);
        formats.push(AudioFormat::Audio24Khz160KBitRateMonoMp3);
        formats.push(AudioFormat::Audio24Khz16Bit24KbpsMonoOpus);
        formats.push(AudioFormat::Audio24Khz16Bit48KbpsMonoOpus);
        formats.push(AudioFormat::Audio24Khz48KBitRateMonoMp3);
        formats.push(AudioFormat::Audio24Khz96KBitRateMonoMp3);
        formats.push(AudioFormat::Audio48Khz192KBitRateMonoMp3);
        formats.push(AudioFormat::Audio48Khz96KBitRateMonoMp3);
        formats.push(AudioFormat::Ogg16Khz16BitMonoOpus);
        formats.push(AudioFormat::Ogg24Khz16BitMonoOpus);
        formats.push(AudioFormat::Ogg48Khz16BitMonoOpus);
        formats.push(AudioFormat::Raw16Khz16BitMonoPcm);
        formats.push(AudioFormat::Raw16Khz16BitMonoTrueSilk);
        formats.push(AudioFormat::Raw22050Hz16BitMonoPcm);
        formats.push(AudioFormat::Raw24Khz16BitMonoPcm);
        formats.push(AudioFormat::Raw24Khz16BitMonoTrueSilk);
        formats.push(AudioFormat::Raw44100Hz16BitMonoPcm);
        formats.push(AudioFormat::Raw48Khz16BitMonoPcm);
        formats.push(AudioFormat::Raw8Khz16BitMonoPcm);
        formats.push(AudioFormat::Raw8Khz8BitMonoALaw);
        formats.push(AudioFormat::Raw8Khz8BitMonoMULaw);
        formats.push(AudioFormat::Riff16Khz16BitMonoPcm);
        formats.push(AudioFormat::Riff22050Hz16BitMonoPcm);
        formats.push(AudioFormat::Riff24Khz16BitMonoPcm);
        formats.push(AudioFormat::Riff44100Hz16BitMonoPcm);
        formats.push(AudioFormat::Riff48Khz16BitMonoPcm);
        formats.push(AudioFormat::Riff8Khz16BitMonoPcm);
        formats.push(AudioFormat::Riff8Khz8BitMonoALaw);
        formats.push(AudioFormat::Riff8Khz8BitMonoMULaw);
        formats.push(AudioFormat::Webm16Khz16BitMonoOpus);
        formats.push(AudioFormat::Webm24Khz16Bit24KbpsMonoOpus);
        formats.push(AudioFormat::Webm24Khz16BitMonoOpus);
        assert(formats@ =~= Self::every());
        formats
    }

    /// The format of the given name, if there is one.
    pub fn from_name(name: &str) -> (r: Option<AudioFormat>)
        ensures
            match r {
                Some(format) => format.name() == name@,
                None => forall|format: AudioFormat| format.name() != name@,
            },
    {
        if str_eq(name, "amr-wb-16000hz") {
            Some(AudioFormat::AmrWb16000Hz)
        } else if str_eq(name, "audio-16khz-128kbitrate-mono-mp3") {
            Some(AudioFormat::Audio16Khz128KBitRateMonoMp3)
        } else if str_eq(name, "audio-16khz-16bit-32kbps-mono-opus") {
            Some(AudioFormat::Audio16Khz16Bit32KbpsMonoOpus)
        } else if str_eq(name, "audio-16khz-32kbitrate-mono-mp3") {
            Some(AudioFormat::Audio16Khz32KBitRateMonoMp3)
        } else if str_eq(name, "audio-16khz-64kbitrate-mono-mp3") {
            Some(AudioFormat::Audio16Khz64KBitRateMonoMp3)
        } else if str_eq(name, "audio-24khz-160kbitrate-mono-mp3") {
            Some(AudioFormat::Audio24Khz160KBitRateMonoMp3)
        } else if str_eq(name, "audio-24khz-16bit-24kbps-mono-opus") {
            Some(AudioFormat::Audio24Khz16Bit24KbpsMonoOpus)
        } else if str_eq(name, "audio-24khz-16bit-48kbps-mono-opus") {
            Some(AudioFormat::Audio24Khz16Bit48KbpsMonoOpus)
        } else if str_eq(name, "audio-24khz-48kbitrate-mono-mp3") {
            Some(AudioFormat::Audio24Khz48KBitRateMonoMp3)
        } else if str_eq(name, "audio-24khz-96kbitrate-mono-mp3") {
            Some(AudioFormat::Audio24Khz96KBitRateMonoMp3)
        } else if str_eq(name, "audio-48khz-192kbitrate-mono-mp3") {
            Some(AudioFormat::Audio48Khz192KBitRateMonoMp3)
        } else if str_eq(name, "audio-48khz-96kbitrate-mono-mp3") {
            Some(AudioFormat::Audio48Khz96KBitRateMonoMp3)
        } else if str_eq(name, "ogg-16khz-16bit-mono-opus") {
            Some(AudioFormat::Ogg16Khz16BitMonoOpus)
        } else if str_eq(name, "ogg-24khz-16bit-mono-opus") {
            Some(AudioFormat::Ogg24Khz16BitMonoOpus)
        } else if str_eq(name, "ogg-48khz-16bit-mono-opus") {
            Some(AudioFormat::Ogg48Khz16BitMonoOpus)
        } else if str_eq(name, "raw-16khz-16bit-mono-pcm") {
            Some(AudioFormat::Raw16Khz16BitMonoPcm)
        } else if str_eq(name, "raw-16khz-16bit-mono-truesilk") {
            Some(AudioFormat::Raw16Khz16BitMonoTrueSilk)
        } else if str_eq(name, "raw-22050hz-16bit-mono-pcm") {
            Some(AudioFormat::Raw22050Hz16BitMonoPcm)
        } else if str_eq(name, "raw-24khz-16bit-mono-pcm") {
            Some(AudioFormat::Raw24Khz16BitMonoPcm)
        } else if str_eq(name, "raw-24khz-16bit-mono-truesilk") {
            Some(AudioFormat::Raw24Khz16BitMonoTrueSilk)
        } else if str_eq(name, "raw-44100hz-16bit-mono-pcm") {
            Some(AudioFormat::Raw44100Hz16BitMonoPcm)
        } else if str_eq(name, "raw-48khz-16bit-mono-pcm") {
            Some(AudioFormat::Raw48Khz16BitMonoPcm)
        } else if str_eq(name, "raw-8khz-16bit-mono-pcm") {
            Some(AudioFormat::Raw8Khz16BitMonoPcm)
        } else if str_eq(name, "raw-8khz-8bit-mono-alaw") {
            Some(AudioFormat::Raw8Khz8BitMonoALaw)
        } else if str_eq(name, "raw-8khz-8bit-mono-mulaw") {
            Some(AudioFormat::Raw8Khz8BitMonoMULaw)
        } else if str_eq(name, "riff-16khz-16bit-mono-pcm") {
            Some(AudioFormat::Riff16Khz16BitMonoPcm)
        } else if str_eq(name, "riff-22050hz-16bit-mono-pcm") {
            Some(AudioFormat::Riff22050Hz16BitMonoPcm)
        } else if str_eq(name, "riff-24khz-16bit-mono-pcm") {
            Some(AudioFormat::Riff24Khz16BitMonoPcm)
        } else if str_eq(name, "riff-44100hz-16bit-mono-pcm") {
            Some(AudioFormat::Riff44100Hz16BitMonoPcm)
        } else if str_eq(name, "riff-48khz-16bit-mono-pcm") {
            Some(AudioFormat::Riff48Khz16BitMonoPcm)
        } else if str_eq(name, "riff-8khz-16bit-mono-pcm") {
            Some(AudioFormat::Riff8Khz16BitMonoPcm)
        } else if str_eq(name, "riff-8khz-8bit-mono-alow") {
            Some(AudioFormat::Riff8Khz8BitMonoALaw)
        } else if str_eq(name, "riff-8khz-8bit-mono-mulaw") {
            Some(AudioFormat::Riff8Khz8BitMonoMULaw)
        } else if str_eq(name, "webm-16khz-16bit-mono-opus") {
            Some(AudioFormat::Webm16Khz16BitMonoOpus)
        } else if str_eq(name, "webm-24khz-16bit-24kbps-mono-opus") {
            Some(AudioFormat::Webm24Khz16Bit24KbpsMonoOpus)
        } else if str_eq(name, "webm-24khz-16bit-mono-opus") {
            Some(AudioFormat::Webm24Khz16BitMonoOpus)
        } else {
            None
        }
    }

    /// The format of a container at a quality.
    ///
    /// A quality outside the container's range is an error, unless
    /// `use_closest` asks for the nearest quality that the container has.
    pub fn from_container_and_quality(container: &str, quality: i8, use_closest: bool) -> (r:
        Result<AudioFormat, FormatError>)
        ensures
            format_result_view(r) == resolved_format(container@, quality, use_closest),
    {
        let known = match Container::from_name(container) {
            Some(known) => known,
            None => {
                return Err(FormatError::UnknownContainer { container: container.to_owned() });
            },
        };
        match known.format(quality) {
            Some(format) => Ok(format),
            None => {
                if !use_closest {
                    return Err(
                        FormatError::InvalidQuality { container: container.to_owned(), quality },
                    );
                }
                let (least, greatest) = known.quality_range();
                let nearest = if quality < least {
                    least
                } else {
                    greatest
                };
                match known.format(nearest) {
                    Some(format) => Ok(format),
                    None => unreached(),
                }
            },
        }
    }
}

/// How far two qualities are apart.
pub open spec fn distance(a: int, b: int) -> int {
    if a <= b {
        b - a
    } else {
        a - b
    }
}

/// The table holds a format for each quality of a container from the least
/// to the greatest, and for no other.
pub proof fn lemma_table_is_a_range(container: Container, quality: int)
    ensures
        container.entry(quality) is Some <==> container.least() <= quality
            <= container.greatest(),
{
}

/// Each container is found by its name.
pub proof fn lemma_containers_by_name(container: Container)
    ensures
        Container::named(container.name()) == Some(container),
{
    reveal_strlit("wav");
    reveal_strlit("mp3");
    reveal_strlit("ogg");
    reveal_strlit("webm");
    assert("wav"@[0] == 'w');
    assert("mp3"@[0] == 'm');
    assert("ogg"@[0] == 'o');
    assert("webm"@.len() == 4);
}

/// Every entry of the table resolves to its format, whether or not the
/// nearest quality is asked for.
pub proof fn lemma_table_entries_resolve(container: Container, quality: i8, use_closest: bool)
    requires
        container.entry(quality as int) is Some,
    ensures
        resolved_format(container.name(), quality, use_closest) == Ok::<
            AudioFormat,
            FormatErrorView,
        >(container.entry(quality as int)->0),
{
    lemma_containers_by_name(container);
}

/// A quality outside a container's range resolves, where the nearest quality
/// is asked for, to the format at the end of the range on its side; no
/// quality of the range is nearer to it.
pub proof fn lemma_closest_is_nearest(container: Container, quality: i8)
    requires
        container.entry(quality as int) is None,
    ensures
        ({
            let end = if quality < container.least() {
                container.least()
            } else {
                container.greatest()
            };
            &&& (quality < container.least() || quality > container.greatest())
            &&& container.entry(end) is Some
            &&& resolved_format(container.name(), quality, true) == Ok::<
                AudioFormat,
                FormatErrorView,
            >(container.entry(end)->0)
            &&& forall|other: int|
                container.least() <= other <= container.greatest() ==> distance(
                    quality as int,
                    end,
                ) <= #[trigger] distance(quality as int, other)
        }),
{
    lemma_containers_by_name(container);
}

/// What tells a name apart from the others: its length and four of its
/// characters.
pub open spec fn name_marks(name: Seq<char>) -> (nat, char, char, char, char) {
    (
        name.len(),
        name[4],
        name[6],
        name[12],
        if name.len() > 18 {
            name[18]
        } else {
            ' '
        },
    )
}

impl AudioFormat {
    /// The marks of the format's name.
    pub open spec fn marks(self) -> (nat, char, char, char, char) {
        match self {
            AudioFormat::AmrWb16000Hz => (14, 'w', '-', 'h', ' '),
            AudioFormat::Audio16Khz128KBitRateMonoMp3 => (32, 'o', '1', '1', 't'),
            AudioFormat::Audio16Khz16Bit32KbpsMonoOpus => (34, 'o', '1', '1', '3'),
            AudioFormat::Audio16Khz32KBitRateMonoMp3 => (31, 'o', '1', '3', 'r'),
            AudioFormat::Audio16Khz64KBitRateMonoMp3 => (31, 'o', '1', '6', 'r'),
            AudioFormat::Audio24Khz160KBitRateMonoMp3 => (32, 'o', '2', '1', 't'),
            AudioFormat::Audio24Khz16Bit24KbpsMonoOpus => (34, 'o', '2', '1', '2'),
            AudioFormat::Audio24Khz16Bit48KbpsMonoOpus => (34, 'o', '2', '1', '4'),
            AudioFormat::Audio24Khz48KBitRateMonoMp3 => (31, 'o', '2', '4', 'r'),
            AudioFormat::Audio24Khz96KBitRateMonoMp3 => (31, 'o', '2', '9', 'r'),
            AudioFormat::Audio48Khz192KBitRateMonoMp3 => (32, 'o', '4', '1', 't'),
            AudioFormat::Audio48Khz96KBitRateMonoMp3 => (31, 'o', '4', '9', 'r'),
            AudioFormat::Ogg16Khz16BitMonoOpus => (25, '1', 'k', 'b', 'n'),
            AudioFormat::Ogg24Khz16BitMonoOpus => (25, '2', 'k', 'b', 'n'),
            AudioFormat::Ogg48Khz16BitMonoOpus => (25, '4', 'k', 'b', 'n'),
            AudioFormat::Raw16Khz16BitMonoPcm => (24, '1', 'k', 'b', 'n'),
            AudioFormat::Raw16Khz16BitMonoTrueSilk => (29, '1', 'k', 'b', 'n'),
            AudioFormat::Raw22050Hz16BitMonoPcm => (26, '2', '0', '1', 'm'),
            AudioFormat::Raw24Khz16BitMonoPcm => (24, '2', 'k', 'b', 'n'),
            AudioFormat::Raw24Khz16BitMonoTrueSilk => (29, '2', 'k', 'b', 'n'),
            AudioFormat::Raw44100Hz16BitMonoPcm => (26, '4', '1', '1', 'm'),
            AudioFormat::Raw48Khz16BitMonoPcm => (24, '4', 'k', 'b', 'n'),
            AudioFormat::Raw8Khz16BitMonoPcm => (23, '8', 'h', 'i', 'o'),
            AudioFormat::Raw8Khz8BitMonoALaw => (23, '8', 'h', 't', '-'),
            AudioFormat::Raw8Khz8BitMonoMULaw => (24, '8', 'h', 't', '-'),
            AudioFormat::Riff16Khz16BitMonoPcm => (25, '-', '6', '6', 'o'),
            AudioFormat::Riff22050Hz16BitMonoPcm => (27, '-', '2', '-', '-'),
            AudioFormat::Riff24Khz16BitMonoPcm => (25, '-', '4', '6', 'o'),
            AudioFormat::Riff44100Hz16BitMonoPcm => (27, '-', '4', '-', '-'),
            AudioFormat::Riff48Khz16BitMonoPcm => (25, '-', '8', '6', 'o'),
            AudioFormat::Riff8Khz16BitMonoPcm => (24, '-', 'k', 'b', 'n'),
            AudioFormat::Riff8Khz8BitMonoALaw => (24, '-', 'k', 'i', 'o'),
            AudioFormat::Riff8Khz8BitMonoMULaw => (25, '-', 'k', 'i', 'o'),
            AudioFormat::Webm16Khz16BitMonoOpus => (26, '-', '6', '6', 'o'),
            AudioFormat::Webm24Khz16Bit24KbpsMonoOpus => (33, '-', '4', '6', '4'),
            AudioFormat::Webm24Khz16BitMonoOpus => (26, '-', '4', '6', 'o'),
        }
    }
}

/// The marks of each format are those of its name.
proof fn lemma_marks_of_names(format: AudioFormat)
    ensures
        name_marks(format.name()) == format.marks(),
{
    match format {
        AudioFormat::AmrWb16000Hz => {
            reveal_strlit("amr-wb-16000hz");
        },
        AudioFormat::Audio16Khz128KBitRateMonoMp3 => {
            reveal_strlit("audio-16khz-128kbitrate-mono-mp3");
        },
        AudioFormat::Audio16Khz16Bit32KbpsMonoOpus => {
            reveal_strlit("audio-16khz-16bit-32kbps-mono-opus");
        },
        AudioFormat::Audio16Khz32KBitRateMonoMp3 => {
            reveal_strlit("audio-16khz-32kbitrate-mono-mp3");
        },
        AudioFormat::Audio16Khz64KBitRateMonoMp3 => {
            reveal_strlit("audio-16khz-64kbitrate-mono-mp3");
        },
        AudioFormat::Audio24Khz160KBitRateMonoMp3 => {
            reveal_strlit("audio-24khz-160kbitrate-mono-mp3");
        },
        AudioFormat::Audio24Khz16Bit24KbpsMonoOpus => {
            reveal_strlit("audio-24khz-16bit-24kbps-mono-opus");
        },
        AudioFormat::Audio24Khz16Bit48KbpsMonoOpus => {
            reveal_strlit("audio-24khz-16bit-48kbps-mono-opus");
        },
        AudioFormat::Audio24Khz48KBitRateMonoMp3 => {
            reveal_strlit("audio-24khz-48kbitrate-mono-mp3");
        },
        AudioFormat::Audio24Khz96KBitRateMonoMp3 => {
            reveal_strlit("audio-24khz-96kbitrate-mono-mp3");
        },
        AudioFormat::Audio48Khz192KBitRateMonoMp3 => {
            reveal_strlit("audio-48khz-192kbitrate-mono-mp3");
        },
        AudioFormat::Audio48Khz96KBitRateMonoMp3 => {
            reveal_strlit("audio-48khz-96kbitrate-mono-mp3");
        },
        AudioFormat::Ogg16Khz16BitMonoOpus => {
            reveal_strlit("ogg-16khz-16bit-mono-opus");
        },
        AudioFormat::Ogg24Khz16BitMonoOpus => {
            reveal_strlit("ogg-24khz-16bit-mono-opus");
        },
        AudioFormat::Ogg48Khz16BitMonoOpus => {
            reveal_strlit("ogg-48khz-16bit-mono-opus");
        },
        AudioFormat::Raw16Khz16BitMonoPcm => {
            reveal_strlit("raw-16khz-16bit-mono-pcm");
        },
        AudioFormat::Raw16Khz16BitMonoTrueSilk => {
            reveal_strlit("raw-16khz-16bit-mono-truesilk");
        },
        AudioFormat::Raw22050Hz16BitMonoPcm => {
            reveal_strlit("raw-22050hz-16bit-mono-pcm");
        },
        AudioFormat::Raw24Khz16BitMonoPcm => {
            reveal_strlit("raw-24khz-16bit-mono-pcm");
        },
        AudioFormat::Raw24Khz16BitMonoTrueSilk => {
            reveal_strlit("raw-24khz-16bit-mono-truesilk");
        },
        AudioFormat::Raw44100Hz16BitMonoPcm => {
            reveal_strlit("raw-44100hz-16bit-mono-pcm");
        },
        AudioFormat::Raw48Khz16BitMonoPcm => {
            reveal_strlit("raw-48khz-16bit-mono-pcm");
        },
        AudioFormat::Raw8Khz16BitMonoPcm => {
            reveal_strlit("raw-8khz-16bit-mono-pcm");
        },
        AudioFormat::Raw8Khz8BitMonoALaw => {
            reveal_strlit("raw-8khz-8bit-mono-alaw");
        },
        AudioFormat::Raw8Khz8BitMonoMULaw => {
            reveal_strlit("raw-8khz-8bit-mono-mulaw");
        },
        AudioFormat::Riff16Khz16BitMonoPcm => {
            reveal_strlit("riff-16khz-16bit-mono-pcm");
        },
        AudioFormat::Riff22050Hz16BitMonoPcm => {
            reveal_strlit("riff-22050hz-16bit-mono-pcm");
        },
        AudioFormat::Riff24Khz16BitMonoPcm => {
            reveal_strlit("riff-24khz-16bit-mono-pcm");
        },
        AudioFormat::Riff44100Hz16BitMonoPcm => {
            reveal_strlit("riff-44100hz-16bit-mono-pcm");
        },
        AudioFormat::Riff48Khz16BitMonoPcm => {
            reveal_strlit("riff-48khz-16bit-mono-pcm");
        },
        AudioFormat::Riff8Khz16BitMonoPcm => {
            reveal_strlit("riff-8khz-16bit-mono-pcm");
        },
        AudioFormat::Riff8Khz8BitMonoALaw => {
            reveal_strlit("riff-8khz-8bit-mono-alow");
        },
        AudioFormat::Riff8Khz8BitMonoMULaw => {
            reveal_strlit("riff-8khz-8bit-mono-mulaw");
        },
        AudioFormat::Webm16Khz16BitMonoOpus => {
            reveal_strlit("webm-16khz-16bit-mono-opus");
        },
        AudioFormat::Webm24Khz16Bit24KbpsMonoOpus => {
            reveal_strlit("webm-24khz-16bit-24kbps-mono-opus");
        },
        AudioFormat::Webm24Khz16BitMonoOpus => {
            reveal_strlit("webm-24khz-16bit-mono-opus");
        },
    }
}

/// No two formats have the same marks.
proof fn lemma_marks_differ(a: AudioFormat, b: AudioFormat)
    requires
        a.marks() == b.marks(),
    ensures
        a == b,
{
}

/// No two formats have the same name.
pub proof fn lemma_format_names_differ(a: AudioFormat, b: AudioFormat)
    requires
        a.name() == b.name(),
    ensures
        a == b,
{
    lemma_marks_of_names(a);
    lemma_marks_of_names(b);
    lemma_marks_differ(a, b);
}

impl Default for AudioFormat {
    fn default() -> (r: AudioFormat)
        ensures
            r == AudioFormat::Riff24Khz16BitMonoPcm,
    {
        AudioFormat::Riff24Khz16BitMonoPcm
    }
}

} // verus!
