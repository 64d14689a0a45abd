//! The compression postprocessor: it picks a codec by name, takes a
//! compression level where the codec has one, and hands each payload to the
//! codec's encoder.

use crate::decimal::{decimal_i64, parse_i64};
use vstd::prelude::*;
use vstd::string::StringExecFns;

verus! {

/// The compression level that a codec is asked to use.
#[derive(Clone, Copy, Debug, PartialEq, Eq)]
pub enum Config {
    Custom(i64),
    Default,
}

/// The codecs, each with the level it is set to where it has one.
#[derive(Clone, Copy, Debug, PartialEq, Eq)]
pub enum Codec {
    Gzip,
    Zlib,
    Xz2 { compression_level: u32 },
    Snappy,
    Lz4 { compression_level: u32 },
    Zstd { compression_level: i32 },
}

/// Why a codec could not be set up or could not encode.
#[derive(Clone, Debug)]
pub enum CompressError {
    /// The configuration names no algorithm.
    MissingAlgorithm,
    /// No codec goes by this name.
    UnknownAlgorithm(String),
    /// The level is not a number.
    LevelNotANumber,
    /// The codec takes no level.
    LevelNotSupported,
    /// The codec has no such level.
    LevelOutOfRange,
    /// The encoder failed, with these words.
    Encoder(String),
}

/// The level that xz starts with.
pub const XZ2_DEFAULT_LEVEL: u32 = 9;

/// The highest level that xz has.
pub const XZ2_MAX_LEVEL: u32 = 9;

/// The level that lz4 starts with.
pub const LZ4_DEFAULT_LEVEL: u32 = 4;

/// The level that leaves the choice to zstd.
pub const ZSTD_DEFAULT_LEVEL: i32 = 0;

/// What `libflate`'s zlib encoder makes of a payload.
pub uninterp spec fn zlib_stream(data: Seq<u8>) -> Result<Seq<u8>, Seq<char>>;

/// What `xz2`'s encoder makes of a payload at a level.
pub uninterp spec fn xz_stream(data: Seq<u8>, level: u32) -> Result<Seq<u8>, Seq<char>>;

/// What `snap`'s frame encoder makes of a payload.
pub uninterp spec fn snappy_frames(data: Seq<u8>) -> Result<Seq<u8>, Seq<char>>;

/// What `lz4`'s encoder makes of a payload at a level.
pub uninterp spec fn lz4_frame(data: Seq<u8>, level: u32) -> Result<Seq<u8>, Seq<char>>;

/// What `zstd::encode_all` makes of a payload at a level.
pub uninterp spec fn zstd_frame(data: Seq<u8>, level: i32) -> Result<Seq<u8>, Seq<char>>;

/// What the snappy codec reports: the frames, or the encoder's failure
/// with the codec's name before it.
pub open spec fn snappy_result(data: Seq<u8>) -> Result<Seq<u8>, Seq<char>> {
    match snappy_frames(data) {
        Ok(frames) => Ok(frames),
        Err(words) => Err("Snappy compression postprocessor error: "@ + words),
    }
}

/// Is `out` the encoder's result `stream`?
pub open spec fn is_stream(out: Result<Vec<u8>, String>, stream: Result<Seq<u8>, Seq<char>>) -> bool {
    match (out, stream) {
        (Ok(bytes), Ok(s)) => bytes@ == s,
        (Err(words), Err(w)) => words@ == w,
        _ => false,
    }
}

/// Runs `libflate::gzip::Encoder` over the payload: `new`, `write_all`,
/// `finish`. The header it writes holds the time of the call, so nothing is
/// claimed of the bytes.
#[verifier::external_body]
fn gzip_encode(data: &[u8]) -> (out: Result<Vec<u8>, String>) {
    let mut encoder = match libflate::gzip::Encoder::new(Vec::new()) {
        Ok(encoder) => encoder,
        Err(e) => return Err(format!("{}", e)),
    };
    if let Err(e) = std::io::Write::write_all(&mut encoder, data) {
        return Err(format!("{}", e));
    }
    match encoder.finish().into_result() {
        Ok(bytes) => Ok(bytes),
        Err(e) => Err(format!("{}", e)),
    }
}

/// Runs `libflate::zlib::Encoder` over the payload: `new`, `write_all`,
/// `finish`. The contract names the result, which depends on the payload
/// alone.
#[verifier::external_body]
fn zlib_encode(data: &[u8]) -> (out: Result<Vec<u8>, String>)
    ensures
        is_stream(out, zlib_stream(data@)),
{
    let mut encoder = match libflate::zlib::Encoder::new(Vec::new()) {
        Ok(encoder) => encoder,
        Err(e) => return Err(format!("{}", e)),
    };
    if let Err(e) = std::io::Write::write_all(&mut encoder, data) {
        return Err(format!("{}", e));
    }
    match encoder.finish().into_result() {
        Ok(bytes) => Ok(bytes),
        Err(e) => Err(format!("{}", e)),
    }
}

/// Runs `xz2::write::XzEncoder` over the payload: `new`, `write_all`,
/// `finish`. `new` panics on a level that xz does not have, so the level
/// is at most 9. The contract names the result.
#[verifier::external_body]
fn xz2_encode(data: &[u8], level: u32) -> (out: Result<Vec<u8>, String>)
    requires
        level <= XZ2_MAX_LEVEL,
    ensures
        is_stream(out, xz_stream(data@, level)),
{
    let mut encoder = xz2::write::XzEncoder::new(Vec::new(), level);
    if let Err(e) = std::io::Write::write_all(&mut encoder, data) {
        return Err(format!("{}", e));
    }
    match encoder.finish() {
        Ok(bytes) => Ok(bytes),
        Err(e) => Err(format!("{}", e)),
    }
}

/// Runs `snap::write::FrameEncoder` over the payload: `new`, `write_all`,
/// `into_inner`. The contract names the result.
#[verifier::external_body]
fn snappy_encode(data: &[u8]) -> (out: Result<Vec<u8>, String>)
    ensures
        is_stream(out, snappy_frames(data@)),
{
    let mut writer = snap::write::FrameEncoder::new(Vec::new());
    if let Err(e) = std::io::Write::write_all(&mut writer, data) {
        return Err(format!("{}", e));
    }
    match writer.into_inner() {
        Ok(bytes) => Ok(bytes),
        Err(e) => Err(format!("{}", e)),
    }
}

/// Runs `lz4::EncoderBuilder` and its encoder over the payload: `level`,
/// `build`, `write_all`, `finish`, whose buffer is handed on whatever it
/// reports. The contract names the result.
#[verifier::external_body]
fn lz4_encode(data: &[u8], level: u32) -> (out: Result<Vec<u8>, String>)
    ensures
        is_stream(out, lz4_frame(data@, level)),
{
    let mut encoder = match lz4::EncoderBuilder::new().level(level).build(Vec::new()) {
        Ok(encoder) => encoder,
        Err(e) => return Err(format!("{}", e)),
    };
    if let Err(e) = std::io::Write::write_all(&mut encoder, data) {
        return Err(format!("{}", e));
    }
    Ok(encoder.finish().0)
}

/// Calls `zstd::encode_all` on the payload. The contract names the result.
#[verifier::external_body]
fn zstd_encode(data: &[u8], level: i32) -> (out: Result<Vec<u8>, String>)
    ensures
        is_stream(out, zstd_frame(data@, level)),
{
    match zstd::encode_all(data, level) {
        Ok(bytes) => Ok(bytes),
        Err(e) => Err(format!("{}", e)),
    }
}

/// The codec that goes by `name`, at the level it starts with.
pub open spec fn codec_named(name: Seq<char>) -> Option<Codec> {
    if name == "gzip"@ {
        Some(Codec::Gzip)
    } else if name == "zlib"@ {
        Some(Codec::Zlib)
    } else if name == "xz2"@ {
        Some(Codec::Xz2 { compression_level: 0 })
    } else if name == "snappy"@ {
        Some(Codec::Snappy)
    } else if name == "lz4"@ {
        Some(Codec::Lz4 { compression_level: 0 })
    } else if name == "zstd"@ {
        Some(Codec::Zstd { compression_level: 0 })
    } else {
        None
    }
}

/// The codec after it was asked for `level`, or why it refuses.
pub open spec fn with_level(codec: Codec, level: Config) -> Result<Codec, CompressError> {
    match codec {
        Codec::Gzip => Ok(codec),
        Codec::Zlib => Ok(codec),
        Codec::Xz2 { .. } => match level {
            Config::Custom(l) => if 0 <= l <= XZ2_MAX_LEVEL {
                Ok(Codec::Xz2 { compression_level: l as u32 })
            } else {
                Err(CompressError::LevelOutOfRange)
            },
            Config::Default => Ok(Codec::Xz2 { compression_level: XZ2_DEFAULT_LEVEL }),
        },
        Codec::Snappy => match level {
            Config::Custom(_) => Err(CompressError::LevelNotSupported),
            Config::Default => Ok(codec),
        },
        Codec::Lz4 { .. } => match level {
            Config::Custom(l) => if 0 <= l <= u32::MAX {
                Ok(Codec::Lz4 { compression_level: l as u32 })
            } else {
                Err(CompressError::LevelOutOfRange)
            },
            Config::Default => Ok(Codec::Lz4 { compression_level: LZ4_DEFAULT_LEVEL }),
        },
        Codec::Zstd { .. } => match level {
            Config::Custom(l) => if i32::MIN <= l <= i32::MAX {
                Ok(Codec::Zstd { compression_level: l as i32 })
            } else {
                Err(CompressError::LevelOutOfRange)
            },
            Config::Default => Ok(Codec::Zstd { compression_level: ZSTD_DEFAULT_LEVEL }),
        },
    }
}

/// The level asked for by an entry of the configuration: the number it
/// spells, the default where there is no entry, nothing where it spells no
/// number.
pub open spec fn level_of(parsed: Option<Option<i64>>) -> Option<Config> {
    match parsed {
        None => Some(Config::Default),
        Some(Some(l)) => Some(Config::Custom(l)),
        Some(None) => None,
    }
}

impl Codec {
    /// Can the codec encode at the level it is set to?
    pub open spec fn ready(self) -> bool {
        match self {
            Codec::Xz2 { compression_level } => compression_level <= XZ2_MAX_LEVEL,
            _ => true,
        }
    }

    /// The level that the codec is set to; 0 where it has none.
    pub open spec fn level(self) -> i64 {
        match self {
            Codec::Xz2 { compression_level } => compression_level as i64,
            Codec::Lz4 { compression_level } => compression_level as i64,
            Codec::Zstd { compression_level } => compression_level as i64,
            _ => 0,
        }
    }

    /// The codec's name.
    pub fn name(&self) -> (name: &'static str)
        ensures
            name@ == match *self {
                Codec::Gzip => "gzip"@,
                Codec::Zlib => "zlib"@,
                Codec::Xz2 { .. } => "xz2"@,
                Codec::Snappy => "snappy"@,
                Codec::Lz4 { .. } => "lz4"@,
                Codec::Zstd { .. } => "zstd"@,
            },
    {
        match self {
            Codec::Gzip => "gzip",
            Codec::Zlib => "zlib",
            Codec::Xz2 { .. } => "xz2",
            Codec::Snappy => "snappy",
            Codec::Lz4 { .. } => "lz4",
            Codec::Zstd { .. } => "zstd",
        }
    }

    /// Sets the level. A codec without levels ignores the default and,
    /// if it is snappy, refuses any other; a codec with levels refuses one
    /// that it does not have. A refusal leaves the codec as it was.
    pub fn set_compression_level(&mut self, config: Config) -> (done: Result<(), CompressError>)
        ensures
            match with_level(*old(self), config) {
                Ok(codec) => done.is_ok() && *final(self) == codec,
                Err(e) => done == Err::<(), CompressError>(e) && *final(self) == *old(self),
            },
            old(self).ready() ==> final(self).ready(),
    {
        match *self {
            Codec::Gzip => Ok(()),
            Codec::Zlib => Ok(()),
            Codec::Xz2 { .. } => match config {
                Config::Custom(l) => {
                    if 0 <= l && l <= 9 {
                        *self = Codec::Xz2 { compression_level: l as u32 };
                        Ok(())
                    } else {
                        Err(CompressError::LevelOutOfRange)
                    }
                },
                Config::Default => {
                    *self = Codec::Xz2 { compression_level: XZ2_DEFAULT_LEVEL };
                    Ok(())
                },
            },
            Codec::Snappy => match config {
                Config::Custom(_) => Err(CompressError::LevelNotSupported),
                Config::Default => Ok(()),
            },
            Codec::Lz4 { .. } => match config {
                Config::Custom(l) => {
                    if 0 <= l && l <= 4294967295 {
                        *self = Codec::Lz4 { compression_level: l as u32 };
                        Ok(())
                    } else {
                        Err(CompressError::LevelOutOfRange)
                    }
                },
                Config::Default => {
                    *self = Codec::Lz4 { compression_level: LZ4_DEFAULT_LEVEL };
                    Ok(())
                },
            },
            Codec::Zstd { .. } => match config {
                Config::Custom(l) => {
                    if -2147483648 <= l && l <= 2147483647 {
                        *self = Codec::Zstd { compression_level: l as i32 };
                        Ok(())
                    } else {
                        Err(CompressError::LevelOutOfRange)
                    }
                },
                Config::Default => {
                    *self = Codec::Zstd { compression_level: ZSTD_DEFAULT_LEVEL };
                    Ok(())
                },
            },
        }
    }

    /// The level that the codec is set to; 0 where it has none.
    pub fn get_compression_level(&self) -> (level: i64)
        ensures
            level == self.level(),
    {
        match *self {
            Codec::Xz2 { compression_level } => compression_level as i64,
            Codec::Lz4 { compression_level } => compression_level as i64,
            Codec::Zstd { compression_level } => compression_level as i64,
            _ => 0,
        }
    }

    /// Hands the payload to the codec's encoder.
    fn encode(&self, data: &[u8]) -> (out: Result<Vec<u8>, String>)
        requires
            self.ready(),
        ensures
            match *self {
                Codec::Gzip => true,
                Codec::Zlib => is_stream(out, zlib_stream(data@)),
                Codec::Xz2 { compression_level } => is_stream(
                    out,
                    xz_stream(data@, compression_level),
                ),
                Codec::Snappy => is_stream(out, snappy_result(data@)),
                Codec::Lz4 { compression_level } => is_stream(
                    out,
                    lz4_frame(data@, compression_level),
                ),
                Codec::Zstd { compression_level } => is_stream(
                    out,
                    zstd_frame(data@, compression_level),
                ),
            },
    {
        match *self {
            Codec::Gzip => gzip_encode(data),
            Codec::Zlib => zlib_encode(data),
            Codec::Xz2 { compression_level } => xz2_encode(data, compression_level),
            Codec::Snappy => match snappy_encode(data) {
                Ok(frames) => Ok(frames),
                Err(words) => Err(
                    "Snappy compression postprocessor error: ".to_owned().concat(words.as_str()),
                ),
            },
            Codec::Lz4 { compression_level } => lz4_encode(data, compression_level),
            Codec::Zstd { compression_level } => zstd_encode(data, compression_level),
        }
    }
}

/// What the postprocessor hands on for an encoder's result: the stream as
/// the one chunk, or the encoder's failure.
pub fn one_chunk(out: Result<Vec<u8>, String>) -> (chunks: Result<Vec<Vec<u8>>, CompressError>)
    ensures
        match out {
            Ok(bytes) => chunks.is_ok() && chunks.unwrap()@ == seq![bytes],
            Err(words) => chunks == Err::<Vec<Vec<u8>>, CompressError>(
                CompressError::Encoder(words),
            ),
        },
{
    match out {
        Ok(bytes) => {
            let mut chunks: Vec<Vec<u8>> = Vec::new();
            chunks.push(bytes);
            assert(chunks@ =~= seq![bytes]);
            Ok(chunks)
        },
        Err(words) => Err(CompressError::Encoder(words)),
    }
}

/// Is `chunks` what the postprocessor hands on for the encoder's result
/// `stream`?
pub open spec fn is_chunked(
    chunks: Result<Vec<Vec<u8>>, CompressError>,
    stream: Result<Seq<u8>, Seq<char>>,
) -> bool {
    match (chunks, stream) {
        (Ok(c), Ok(s)) => c@.len() == 1 && c@[0]@ == s,
        (Err(CompressError::Encoder(words)), Err(w)) => words@ == w,
        _ => false,
    }
}

/// The compression postprocessor.
#[derive(Clone, Copy, Debug)]
pub struct Compress {
    codec: Codec,
}

impl Compress {
    /// The codec in use.
    pub closed spec fn codec(&self) -> Codec {
        self.codec
    }

    /// The postprocessor that the configuration asks for: the codec named
    /// by `algorithm`, set to the level that `level` spells, or to its
    /// default where there is none.
    pub fn from_config(algorithm: Option<&str>, level: Option<&str>) -> (made: Result<
        Compress,
        CompressError,
    >)
        ensures
            made.is_ok() ==> made.unwrap().codec().ready(),
            match algorithm {
                None => made == Err::<Compress, CompressError>(CompressError::MissingAlgorithm),
                Some(name) => match codec_named(name@) {
                    None => made.is_err() && match made.unwrap_err() {
                        CompressError::UnknownAlgorithm(n) => n@ == name@,
                        _ => false,
                    },
                    Some(codec) => match level {
                        None => configured(made, codec, Some(Config::Default)),
                        Some(text) => configured(
                            made,
                            codec,
                            level_of(Some(decimal_i64(text@))),
                        ),
                    },
                },
            },
    {
        let name = match algorithm {
            Some(name) => name,
            None => {
                return Err(CompressError::MissingAlgorithm);
            },
        };
        let owned = name.to_owned();
        let codec = if owned == "gzip".to_owned() {
            Codec::Gzip
        } else if owned == "zlib".to_owned() {
            Codec::Zlib
        } else if owned == "xz2".to_owned() {
            Codec::Xz2 { compression_level: 0 }
        } else if owned == "snappy".to_owned() {
            Codec::Snappy
        } else if owned == "lz4".to_owned() {
            Codec::Lz4 { compression_level: 0 }
        } else if owned == "zstd".to_owned() {
            Codec::Zstd { compression_level: 0 }
        } else {
            return Err(CompressError::UnknownAlgorithm(owned));
        };
        let parsed = match level {
            Some(text) => Some(parse_i64(text)),
            None => None,
        };
        Self::with_codec(codec, parsed)
    }

    /// The postprocessor for a codec and what the level's entry spelled.
    pub fn with_codec(codec: Codec, parsed: Option<Option<i64>>) -> (made: Result<
        Compress,
        CompressError,
    >)
        requires
            codec.ready(),
        ensures
            made.is_ok() ==> made.unwrap().codec().ready(),
            configured(made, codec, level_of(parsed)),
    {
        let mut codec = codec;
        let level = match parsed {
            None => Config::Default,
            Some(Some(l)) => Config::Custom(l),
            Some(None) => {
                return Err(CompressError::LevelNotANumber);
            },
        };
        match codec.set_compression_level(level) {
            Ok(_) => Ok(Compress { codec }),
            Err(e) => Err(e),
        }
    }

    /// The postprocessor's name.
    pub fn name(&self) -> (name: &'static str)
        ensures
            name@ == "compress"@,
    {
        "compress"
    }

    /// Compresses one payload into one chunk.
    pub fn process(&mut self, _ingres_ns: u64, _egress_ns: u64, data: &[u8]) -> (chunks: Result<
        Vec<Vec<u8>>,
        CompressError,
    >)
        requires
            old(self).codec().ready(),
        ensures
            *final(self) == *old(self),
            match old(self).codec() {
                Codec::Gzip => match chunks {
                    Ok(c) => c@.len() == 1,
                    Err(CompressError::Encoder(_)) => true,
                    _ => false,
                },
                Codec::Zlib => is_chunked(chunks, zlib_stream(data@)),
                Codec::Xz2 { compression_level } => is_chunked(
                    chunks,
                    xz_stream(data@, compression_level),
                ),
                Codec::Snappy => is_chunked(chunks, snappy_result(data@)),
                Codec::Lz4 { compression_level } => is_chunked(
                    chunks,
                    lz4_frame(data@, compression_level),
                ),
                Codec::Zstd { compression_level } => is_chunked(
                    chunks,
                    zstd_frame(data@, compression_level),
                ),
            },
    {
        one_chunk(self.codec.encode(data))
    }

    /// Sets the codec's level.
    pub fn set_compression_level(&mut self, config: Config) -> (done: Result<(), CompressError>)
        ensures
            match with_level(old(self).codec(), config) {
                Ok(codec) => done.is_ok() && final(self).codec() == codec,
                Err(e) => done == Err::<(), CompressError>(e) && *final(self) == *old(self),
            },
            old(self).codec().ready() ==> final(self).codec().ready(),
    {
        self.codec.set_compression_level(config)
    }

    /// The level that the codec is set to; 0 where it has none.
    pub fn get_compression_level(&self) -> (level: i64)
        ensures
            level == self.codec().level(),
    {
        self.codec.get_compression_level()
    }
}

/// Is `made` the postprocessor for `codec` asked for `level`, or the
/// refusal of that level? Without a level, the entry spelled no number.
pub open spec fn configured(
    made: Result<Compress, CompressError>,
    codec: Codec,
    level: Option<Config>,
) -> bool {
    match level {
        None => made == Err::<Compress, CompressError>(CompressError::LevelNotANumber),
        Some(l) => match with_level(codec, l) {
            Ok(c) => made.is_ok() && made.unwrap().codec() == c,
            Err(e) => made == Err::<Compress, CompressError>(e),
        },
    }
}

} // verus!
