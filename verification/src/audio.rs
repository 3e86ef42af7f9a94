//! Errors of decoding an uploaded audio file.

use vstd::prelude::*;

verus! {

/// Why an uploaded audio file could not be decoded.
#[derive(Debug, Clone, PartialEq, Eq)]
pub enum DecodeError {
    UnrecognizedFormat(String),
    NoAudioTrack,
    UnsupportedCodec(String),
    UnknownSampleRate,
    Demux(String),
    Decode(String),
    EmptyAudio,
}

impl DecodeError {
    /// The human-readable description of the error.
    pub open spec fn describe(&self) -> Seq<char> {
        match self {
            DecodeError::UnrecognizedFormat(s) =>
                "Could not recognize this as a supported audio format (MP3, FLAC, or WAV): "@ + s@,
            DecodeError::NoAudioTrack => "No playable audio track found in file"@,
            DecodeError::UnsupportedCodec(s) => "Unsupported audio codec: "@ + s@,
            DecodeError::UnknownSampleRate => "sample rate could not be determined"@,
            DecodeError::Demux(s) => "Demuxing error: "@ + s@,
            DecodeError::Decode(s) => "Decoding error: "@ + s@,
            DecodeError::EmptyAudio => "No audio samples in the decoding"@,
        }
    }

    /// Whether the error is the uploader's fault (the file is not usable
    /// audio) rather than a failure on the serving side.
    pub open spec fn is_client_fault(&self) -> bool {
        match self {
            DecodeError::UnrecognizedFormat(_) | DecodeError::UnsupportedCodec(_)
            | DecodeError::NoAudioTrack | DecodeError::EmptyAudio => true,
            DecodeError::UnknownSampleRate | DecodeError::Demux(_) | DecodeError::Decode(_) => false,
        }
    }

    /// The errors that are the uploader's fault are exactly those saying the
    /// file is not usable audio: an unrecognized format, an unsupported
    /// codec, no audio track, or no samples.
    pub proof fn lemma_client_faults(&self)
        ensures
            self.is_client_fault() <==> (self is UnrecognizedFormat || self is UnsupportedCodec
                || self is NoAudioTrack || self is EmptyAudio),
    {
    }

    /// The description of an error that carries a detail ends with that
    /// detail.
    pub proof fn lemma_description_ends_with_detail(&self)
        ensures
            match self {
                DecodeError::UnrecognizedFormat(s) | DecodeError::UnsupportedCodec(s)
                | DecodeError::Demux(s) | DecodeError::Decode(s) => {
                    &&& self.describe().len() > s@.len()
                    &&& self.describe().subrange(
                        self.describe().len() - s@.len(),
                        self.describe().len() as int,
                    ) == s@
                },
                _ => true,
            },
    {
        match self {
            DecodeError::UnrecognizedFormat(s) | DecodeError::UnsupportedCodec(s)
            | DecodeError::Demux(s) | DecodeError::Decode(s) => {
                let d = self.describe();
                let p = d.subrange(0, d.len() - s@.len());
                assert(d.subrange(d.len() - s@.len(), d.len() as int) =~= s@);
                assert(p.len() > 0) by {
                    reveal_strlit(
                        "Could not recognize this as a supported audio format (MP3, FLAC, or WAV): ",
                    );
                    reveal_strlit("Unsupported audio codec: ");
                    reveal_strlit("Demuxing error: ");
                    reveal_strlit("Decoding error: ");
                }
            },
            _ => {},
        }
    }

    /// Renders the error as text.
    pub fn message(&self) -> (r: String)
        ensures
            r@ == self.describe(),
    {
        match self {
            DecodeError::UnrecognizedFormat(s) => {
                let mut r = String::from_str(
                    "Could not recognize this as a supported audio format (MP3, FLAC, or WAV): ",
                );
                r.append(s.as_str());
                r
            },
            DecodeError::NoAudioTrack => String::from_str("No playable audio track found in file"),
            DecodeError::UnsupportedCodec(s) => {
                let mut r = String::from_str("Unsupported audio codec: ");
                r.append(s.as_str());
                r
            },
            DecodeError::UnknownSampleRate => String::from_str("sample rate could not be determined"),
            DecodeError::Demux(s) => {
                let mut r = String::from_str("Demuxing error: ");
                r.append(s.as_str());
                r
            },
            DecodeError::Decode(s) => {
                let mut r = String::from_str("Decoding error: ");
                r.append(s.as_str());
                r
            },
            DecodeError::EmptyAudio => String::from_str("No audio samples in the decoding"),
        }
    }
}

} // verus!
