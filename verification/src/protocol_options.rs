//! Which Bedrock protocol version the client requests, where that choice
//! came from (configuration, either environment variable, or the default),
//! and which codec version encodes it.

use vstd::prelude::*;
use crate::text::{str_chars, trim_char_vec, trimmed};
use crate::transport::{all_digits, digits_value, lemma_digits_value_nonneg, parse_u64, parse_u64_spec, unsigned_body};

verus! {

pub const DEFAULT_BEDROCK_PROTOCOL_VERSION: i32 = 898;
pub const TORCHFLOWER_BEDROCK_PROTOCOL_VERSION_ENV: &'static str = "TORCHFLOWER_BEDROCK_PROTOCOL_VERSION";
pub const LEGACY_BEDROCK_PROTOCOL_VERSION_ENV: &'static str = "BEDROCK_PROTOCOL_VERSION";

/// Where the requested protocol version came from.
#[derive(Debug, Clone, Copy, PartialEq, Eq)]
pub enum BedrockProtocolVersionSource {
    Config,
    TorchflowerEnv,
    LegacyEnv,
    Default,
}

impl BedrockProtocolVersionSource {
    /// The name a message gives the source: "config", the environment
    /// variable's name, or "default".
    pub fn label(&self) -> (r: &'static str)
        ensures
            r == (match *self {
                BedrockProtocolVersionSource::Config => "config",
                BedrockProtocolVersionSource::TorchflowerEnv => TORCHFLOWER_BEDROCK_PROTOCOL_VERSION_ENV,
                BedrockProtocolVersionSource::LegacyEnv => LEGACY_BEDROCK_PROTOCOL_VERSION_ENV,
                BedrockProtocolVersionSource::Default => "default",
            }),
    {
        match self {
            BedrockProtocolVersionSource::Config => "config",
            BedrockProtocolVersionSource::TorchflowerEnv => TORCHFLOWER_BEDROCK_PROTOCOL_VERSION_ENV,
            BedrockProtocolVersionSource::LegacyEnv => LEGACY_BEDROCK_PROTOCOL_VERSION_ENV,
            BedrockProtocolVersionSource::Default => "default",
        }
    }
}

/// The protocol versions the packet codec can encode.
#[derive(Debug, Clone, Copy, PartialEq, Eq)]
pub enum CodecProtocolVersion {
    V662,
    V766,
    V898,
    V975,
}

pub open spec fn codec_number(v: CodecProtocolVersion) -> u32 {
    match v {
        CodecProtocolVersion::V662 => 662,
        CodecProtocolVersion::V766 => 766,
        CodecProtocolVersion::V898 => 898,
        CodecProtocolVersion::V975 => 975,
    }
}

impl CodecProtocolVersion {
    pub fn to_u32(&self) -> (r: u32)
        ensures
            r == codec_number(*self),
    {
        match self {
            CodecProtocolVersion::V662 => 662,
            CodecProtocolVersion::V766 => 766,
            CodecProtocolVersion::V898 => 898,
            CodecProtocolVersion::V975 => 975,
        }
    }
}

/// The codec for a requested version: the matching one, else 898.
pub open spec fn codec_for(protocol_version: i32) -> CodecProtocolVersion {
    if protocol_version == 662 {
        CodecProtocolVersion::V662
    } else if protocol_version == 766 {
        CodecProtocolVersion::V766
    } else if protocol_version == 975 {
        CodecProtocolVersion::V975
    } else {
        CodecProtocolVersion::V898
    }
}

pub fn codec_protocol_version_for(protocol_version: i32) -> (r: CodecProtocolVersion)
    ensures
        r == codec_for(protocol_version),
{
    match protocol_version {
        662 => CodecProtocolVersion::V662,
        766 => CodecProtocolVersion::V766,
        898 => CodecProtocolVersion::V898,
        975 => CodecProtocolVersion::V975,
        _ => CodecProtocolVersion::V898,
    }
}

/// Why a protocol version was refused.
#[derive(Debug, Clone, Copy, PartialEq, Eq)]
pub enum ProtocolVersionError {
    /// The environment variable of this source is set but blank.
    Empty(BedrockProtocolVersionSource),
    /// The environment variable of this source is not an `i32`.
    NotAnInteger(BedrockProtocolVersionSource),
    /// The version from this source is zero or negative.
    NotPositive(BedrockProtocolVersionSource, i32),
}

/// What `i32::from_str` gives: a `-` then digits, or an optional `+` then
/// digits, whose value fits in 32 bits.
pub open spec fn parse_i32_spec(s: Seq<char>) -> Option<i32> {
    if s.len() > 0 && s[0] == '-' {
        let body = s.drop_first();
        if body.len() > 0 && all_digits(body) && digits_value(body) <= 0x8000_0000 {
            Some((-digits_value(body)) as i32)
        } else {
            None
        }
    } else {
        let body = unsigned_body(s);
        if body.len() > 0 && all_digits(body) && digits_value(body) <= i32::MAX {
            Some(digits_value(body) as i32)
        } else {
            None
        }
    }
}

/// Parses a decimal `i32` as `str::parse` does.
pub fn parse_i32(chars: &Vec<char>) -> (r: Option<i32>)
    ensures
        r == parse_i32_spec(chars@),
{
    if chars.len() > 0 && chars[0] == '-' {
        if chars.len() == 1 || chars[1] == '+' {
            proof {
                if chars@.len() > 1 {
                    assert(!crate::transport::is_ascii_digit(chars@.drop_first()[0]));
                }
            }
            return None;
        }
        let mut body: Vec<char> = Vec::new();
        let mut i: usize = 1;
        while i < chars.len()
            invariant
                1 <= i <= chars@.len(),
                body@ == chars@.subrange(1, i as int),
            decreases chars@.len() - i,
        {
            body.push(chars[i]);
            i = i + 1;
            assert(body@ =~= chars@.subrange(1, i as int));
        }
        assert(body@ =~= chars@.drop_first());
        assert(body@[0] == chars@[1]);
        assert(body@[0] != '+');
        assert(unsigned_body(body@) == body@);
        let parsed = parse_u64(&body);
        assert(body@ == chars@.drop_first());
        match parsed {
            Some(v) => if v <= 0x8000_0000 {
                assert(parse_u64_spec(body@) == Some(v));
                proof {
                    lemma_digits_value_nonneg(body@);
                }
                assert(digits_value(body@) == v);
                let r: i32 = (0 - (v as i64)) as i32;
                assert(r == (-digits_value(body@)) as i32);
                assert(parse_i32_spec(chars@) == Some(r));
                Some(r)
            } else {
                proof {
                    lemma_digits_value_nonneg(body@);
                }
                assert(parse_i32_spec(chars@) is None);
                None
            },
            None => {
                proof {
                    if all_digits(body@) {
                        lemma_digits_value_nonneg(body@);
                    }
                }
                assert(parse_i32_spec(chars@) is None);
                None
            },
        }
    } else {
        let parsed = parse_u64(chars);
        proof {
            if all_digits(unsigned_body(chars@)) {
                lemma_digits_value_nonneg(unsigned_body(chars@));
            }
        }
        match parsed {
            Some(v) => if v <= 0x7fff_ffff {
                assert(parse_i32_spec(chars@) == Some(v as i32));
                Some(v as i32)
            } else {
                assert(parse_i32_spec(chars@) is None);
                None
            },
            None => {
                assert(parse_i32_spec(chars@) is None);
                None
            },
        }
    }
}

/// A protocol version read from the environment variable of `source`:
/// trimmed, then parsed as an `i32`.
pub open spec fn env_protocol_version(source: BedrockProtocolVersionSource, value: Seq<char>) -> Result<i32, ProtocolVersionError> {
    let t = trimmed(value);
    if t.len() == 0 {
        Err(ProtocolVersionError::Empty(source))
    } else {
        match parse_i32_spec(t) {
            Some(v) => Ok(v),
            None => Err(ProtocolVersionError::NotAnInteger(source)),
        }
    }
}

pub fn parse_protocol_version_env(source: BedrockProtocolVersionSource, value: &str) -> (r: Result<i32, ProtocolVersionError>)
    ensures
        r == env_protocol_version(source, value@),
{
    let chars: Vec<char> = str_chars(value);
    let t: Vec<char> = trim_char_vec(&chars);
    if t.len() == 0 {
        return Err(ProtocolVersionError::Empty(source));
    }
    match parse_i32(&t) {
        Some(v) => Ok(v),
        None => Err(ProtocolVersionError::NotAnInteger(source)),
    }
}

pub fn validate_protocol_version(source: BedrockProtocolVersionSource, protocol_version: i32) -> (r: Result<(), ProtocolVersionError>)
    ensures
        r == (if protocol_version <= 0 {
            Err(ProtocolVersionError::NotPositive(source, protocol_version))
        } else {
            Ok(())
        }),
{
    if protocol_version <= 0 {
        Err(ProtocolVersionError::NotPositive(source, protocol_version))
    } else {
        Ok(())
    }
}

/// The protocol the client requests, its codec, and where it came from.
#[derive(Debug, Clone, Copy, PartialEq, Eq)]
pub struct BedrockProtocolOptions {
    pub requested_protocol_version: i32,
    pub codec_protocol_version: CodecProtocolVersion,
    pub source: BedrockProtocolVersionSource,
}

/// The options for a version from `source`: refused when not positive.
pub open spec fn options_from(protocol_version: i32, source: BedrockProtocolVersionSource) -> Result<BedrockProtocolOptions, ProtocolVersionError> {
    if protocol_version <= 0 {
        Err(ProtocolVersionError::NotPositive(source, protocol_version))
    } else {
        Ok(BedrockProtocolOptions {
            requested_protocol_version: protocol_version,
            codec_protocol_version: codec_for(protocol_version),
            source,
        })
    }
}

/// The options chosen from, in order: the configured version, the
/// TorchFlower environment variable, the legacy environment variable, and
/// the default. A set variable is used even when it does not parse.
pub open spec fn resolved_options(
    config: Option<i32>,
    torchflower_env: Option<Seq<char>>,
    legacy_env: Option<Seq<char>>,
) -> Result<BedrockProtocolOptions, ProtocolVersionError> {
    match config {
        Some(v) => options_from(v, BedrockProtocolVersionSource::Config),
        None => match torchflower_env {
            Some(value) => match env_protocol_version(BedrockProtocolVersionSource::TorchflowerEnv, value) {
                Ok(v) => options_from(v, BedrockProtocolVersionSource::TorchflowerEnv),
                Err(e) => Err(e),
            },
            None => match legacy_env {
                Some(value) => match env_protocol_version(BedrockProtocolVersionSource::LegacyEnv, value) {
                    Ok(v) => options_from(v, BedrockProtocolVersionSource::LegacyEnv),
                    Err(e) => Err(e),
                },
                None => options_from(DEFAULT_BEDROCK_PROTOCOL_VERSION, BedrockProtocolVersionSource::Default),
            },
        },
    }
}

pub open spec fn opt_view(value: Option<&str>) -> Option<Seq<char>> {
    match value {
        Some(v) => Some(v@),
        None => None,
    }
}

impl BedrockProtocolOptions {
    pub fn from_source(requested_protocol_version: i32, source: BedrockProtocolVersionSource) -> (r: Result<Self, ProtocolVersionError>)
        ensures
            r == options_from(requested_protocol_version, source),
    {
        match validate_protocol_version(source, requested_protocol_version) {
            Ok(()) => {},
            Err(e) => return Err(e),
        }
        Ok(BedrockProtocolOptions {
            requested_protocol_version,
            codec_protocol_version: codec_protocol_version_for(requested_protocol_version),
            source,
        })
    }

    pub fn from_config(protocol_version: i32) -> (r: Result<Self, ProtocolVersionError>)
        ensures
            r == options_from(protocol_version, BedrockProtocolVersionSource::Config),
    {
        Self::from_source(protocol_version, BedrockProtocolVersionSource::Config)
    }

    /// Chooses the options from the configured version and the values of
    /// the two environment variables (`None` when a variable is unset).
    pub fn resolve(config_protocol_version: Option<i32>, torchflower_env: Option<&str>, legacy_env: Option<&str>) -> (r: Result<Self, ProtocolVersionError>)
        ensures
            r == resolved_options(config_protocol_version, opt_view(torchflower_env), opt_view(legacy_env)),
    {
        if let Some(protocol_version) = config_protocol_version {
            return Self::from_source(protocol_version, BedrockProtocolVersionSource::Config);
        }
        if let Some(value) = torchflower_env {
            return match parse_protocol_version_env(BedrockProtocolVersionSource::TorchflowerEnv, value) {
                Ok(v) => Self::from_source(v, BedrockProtocolVersionSource::TorchflowerEnv),
                Err(e) => Err(e),
            };
        }
        if let Some(value) = legacy_env {
            return match parse_protocol_version_env(BedrockProtocolVersionSource::LegacyEnv, value) {
                Ok(v) => Self::from_source(v, BedrockProtocolVersionSource::LegacyEnv),
                Err(e) => Err(e),
            };
        }
        Self::from_source(DEFAULT_BEDROCK_PROTOCOL_VERSION, BedrockProtocolVersionSource::Default)
    }

    pub fn codec_protocol_version_number(&self) -> (r: i32)
        ensures
            r == codec_number(self.codec_protocol_version) as i32,
    {
        self.codec_protocol_version.to_u32() as i32
    }

    /// True when the codec encodes exactly the requested version.
    pub fn codec_exact_match(&self) -> (r: bool)
        ensures
            r == (self.requested_protocol_version == codec_number(self.codec_protocol_version) as i32),
    {
        self.requested_protocol_version == self.codec_protocol_version_number()
    }
}

} // verus!
