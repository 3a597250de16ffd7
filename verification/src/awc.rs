//! Audio packs and their entries.
//!
//! A pack groups imported audio entries; each entry remembers its
//! project-relative path, its probed sample rate and sample count, and a
//! sound header.  An entry expands into two descriptor streams, one per
//! split lane.

use vstd::prelude::*;
use vstd::string::StringExecFns;
use crate::dat54::{self, Header};
use crate::errors::SplitError;
use crate::paths::{ProjPath, is_path_prefix};
use crate::probe::sample_count;
use crate::xml;

verus! {

/// How a pack's audio is delivered.
#[derive(Debug, Clone, Copy, PartialEq, Eq, Structural, Default)]
pub enum AwcPackType {
    #[default]
    Simple,
    Radio,
}

impl AwcPackType {
    /// The label shown for this pack type.
    pub fn to_string(&self) -> (r: String)
        ensures
            self is Simple ==> r@ == "Simple (Not-streamed)"@,
            self is Radio ==> r@ == "Radio (Streamed)"@,
    {
        match self {
            AwcPackType::Simple => String::from_str("Simple (Not-streamed)"),
            AwcPackType::Radio => String::from_str("Radio (Streamed)"),
        }
    }
}

/// One imported audio entry of a pack.
#[derive(Debug, PartialEq, Eq)]
pub struct AwcEntry {
    /// Location of the imported file, relative to the project directory.
    pub path: ProjPath,
    /// Base name of the entry.
    pub name: String,
    /// Whether playback loops.
    pub looped: bool,
    /// Sound header written with the descriptor.
    pub headers: Header,
    /// Sample rate the decoder reported.
    pub sample_rate: u32,
    /// Registered sample count: container duration times sample rate.
    pub samples: i64,
}

/// What an entry built from a probed file looks like: its relative path
/// recovers the probed location under the project directory, its header is
/// the stock one, and its sample count is the duration-rate product.
pub open spec fn entry_from_probe(
    e: AwcEntry,
    proj: Seq<Seq<char>>,
    dir: Seq<Seq<char>>,
    name: Seq<char>,
    sample_rate: u32,
    duration: i64,
) -> bool {
    &&& dir.push(name + ".wav"@) == proj + e.path@
    &&& e.name@ == name
    &&& e.looped == false
    &&& dat54::is_default_header(e.headers)
    &&& e.sample_rate == sample_rate
    &&& e.samples == duration.wrapping_mul(sample_rate as i64)
}

impl AwcEntry {
    /// Builds the entry for the file `<entry_name>.wav` under `entry_dir`,
    /// from the sample rate and container duration the probe reported.
    /// Fails when the file does not lie inside the project directory.
    pub fn from_file(
        proj_path: &ProjPath,
        entry_dir: &ProjPath,
        entry_name: &str,
        sample_rate: u32,
        duration: i64,
    ) -> (r: Result<AwcEntry, SplitError>)
        ensures
            match r {
                Ok(e) => is_path_prefix(proj_path@, entry_dir@.push(entry_name@ + ".wav"@))
                    && entry_from_probe(e, proj_path@, entry_dir@, entry_name@, sample_rate,
                    duration),
                Err(err) => err == SplitError::PathNotUnderProject && !is_path_prefix(proj_path@,
                    entry_dir@.push(entry_name@ + ".wav"@)),
            },
    {
        let wav_name: String = String::from_str(entry_name).concat(".wav");
        let entry_path: ProjPath = entry_dir.join(wav_name);
        let rel: ProjPath = match entry_path.strip_prefix(proj_path) {
            Ok(p) => p,
            Err(e) => {
                return Err(e);
            },
        };
        Ok(
            AwcEntry {
                path: rel,
                name: String::from_str(entry_name),
                looped: false,
                headers: Header::default(),
                sample_rate,
                samples: sample_count(duration, sample_rate),
            },
        )
    }

    /// The two descriptor streams of this entry, one per lane.
    pub fn to_xml_stream(&self) -> (r: Vec<AwcStream>)
        requires
            0 <= self.samples,
        ensures
            r@.len() == 2,
            stream_built(r@[0], self.name@ + "_left"@, (self.name@ + "_left"@) + ".wav"@,
                self.samples as u64, self.sample_rate),
            stream_built(r@[1], self.name@ + "_right"@, (self.name@ + "_right"@) + ".wav"@,
                self.samples as u64, self.sample_rate),
    {
        let mut streams: Vec<AwcStream> = Vec::new();
        let samples_u64: u64 = self.samples as u64;

        let left_name: String = self.name.clone().concat("_left");
        let left_file: String = left_name.clone().concat(".wav");
        let mut left_chunks: Vec<AwcChunk> = Vec::new();
        left_chunks.push(AwcChunk::Peak);
        left_chunks.push(AwcChunk::Data);
        left_chunks.push(AwcChunk::Format(AwcFormatChunk::new(samples_u64, self.sample_rate)));
        streams.push(
            AwcStream {
                name: xml::InlineValue::new(left_name.as_str()),
                file_name: xml::InlineValue::new(left_file.as_str()),
                chunks: xml::ItemList { item: left_chunks },
            },
        );

        let right_name: String = self.name.clone().concat("_right");
        let right_file: String = right_name.clone().concat(".wav");
        let mut right_chunks: Vec<AwcChunk> = Vec::new();
        right_chunks.push(AwcChunk::Peak);
        right_chunks.push(AwcChunk::Data);
        right_chunks.push(AwcChunk::Format(AwcFormatChunk::new(samples_u64, self.sample_rate)));
        streams.push(
            AwcStream {
                name: xml::InlineValue::new(right_name.as_str()),
                file_name: xml::InlineValue::new(right_file.as_str()),
                chunks: xml::ItemList { item: right_chunks },
            },
        );

        streams
    }
}

/// A named group of entries, generated together into one audio container.
#[derive(Debug, PartialEq, Eq)]
pub struct AwcPack {
    pub name: String,
    pub pack_type: AwcPackType,
    pub entries: Vec<AwcEntry>,
}

impl AwcPack {
    /// Imports one probed file into this pack: builds its entry and
    /// appends it.  The pack is unchanged when the file lies outside the
    /// project directory.
    pub fn add_entry(
        &mut self,
        proj_path: &ProjPath,
        entry_dir: &ProjPath,
        entry_name: &str,
        sample_rate: u32,
        duration: i64,
    ) -> (r: Result<(), SplitError>)
        ensures
            match r {
                Ok(_) => {
                    &&& final(self).entries@.len() == old(self).entries@.len() + 1
                    &&& final(self).entries@.drop_last() == old(self).entries@
                    &&& entry_from_probe(final(self).entries@.last(), proj_path@, entry_dir@,
                        entry_name@, sample_rate, duration)
                    &&& final(self).name == old(self).name
                    &&& final(self).pack_type == old(self).pack_type
                },
                Err(err) => err == SplitError::PathNotUnderProject && !is_path_prefix(proj_path@,
                    entry_dir@.push(entry_name@ + ".wav"@)) && *final(self) == *old(self),
            },
    {
        let entry: AwcEntry = match AwcEntry::from_file(proj_path, entry_dir, entry_name,
            sample_rate, duration) {
            Ok(e) => e,
            Err(err) => {
                return Err(err);
            },
        };
        let ghost prev = self.entries@;
        self.entries.push(entry);
        proof {
            assert(self.entries@.drop_last() =~= prev);
        }
        Ok(())
    }
}

/// One chunk of a descriptor stream.
#[derive(Debug, PartialEq, Eq)]
pub enum AwcChunk {
    Peak,
    Data,
    Format(AwcFormatChunk),
}

/// The format chunk of a stream: codec, sample count and rate, and the
/// fixed playback window and loop settings.
#[derive(Debug, PartialEq, Eq)]
pub struct AwcFormatChunk {
    pub codec: xml::InlineValue,
    pub samples: xml::Value<u64>,
    pub sample_rate: xml::Value<u32>,
    pub headroom: xml::Value<i16>,
    pub play_begin: xml::Value<i16>,
    pub play_end: xml::Value<i16>,
    pub loop_begin: xml::Value<u16>,
    pub loop_end: xml::Value<u16>,
    pub loop_point: xml::Value<i16>,
    pub peak: xml::Unk,
}

/// The fields a fresh format chunk carries for a stream with the given
/// sample count and rate.
pub open spec fn is_format_chunk(f: AwcFormatChunk, samples: u64, sample_rate: u32) -> bool {
    &&& f.codec.value@ == "ADPCM"@
    &&& f.samples.value == samples
    &&& f.sample_rate.value == sample_rate
    &&& f.headroom.value == -161i16
    &&& f.play_begin.value == 0i16
    &&& f.play_end.value == 0i16
    &&& f.loop_begin.value == 0u16
    &&& f.loop_end.value == 0u16
    &&& f.loop_point.value == -1i16
    &&& f.peak.unk@ == "0"@
}

impl AwcFormatChunk {
    pub fn new(samples: u64, sample_rate: u32) -> (r: Self)
        ensures
            is_format_chunk(r, samples, sample_rate),
    {
        Self {
            codec: xml::InlineValue::new("ADPCM"),
            samples: xml::Value::new(samples),
            sample_rate: xml::Value::new(sample_rate),
            headroom: xml::Value::new(-161),
            play_begin: xml::Value::new(0),
            play_end: xml::Value::new(0),
            loop_begin: xml::Value::new(0),
            loop_end: xml::Value::new(0),
            loop_point: xml::Value::new(-1),
            peak: xml::Unk::new("0"),
        }
    }
}

/// One stream element of the audio container descriptor.
#[derive(Debug, PartialEq, Eq)]
pub struct AwcStream {
    pub name: xml::InlineValue,
    pub file_name: xml::InlineValue,
    pub chunks: xml::ItemList<AwcChunk>,
}

/// A descriptor stream for one lane: its name and file name, and the
/// three chunks peak, data and format.
pub open spec fn stream_built(
    s: AwcStream,
    name: Seq<char>,
    file_name: Seq<char>,
    samples: u64,
    sample_rate: u32,
) -> bool {
    &&& s.name.value@ == name
    &&& s.file_name.value@ == file_name
    &&& s.chunks.item@.len() == 3
    &&& s.chunks.item@[0] is Peak
    &&& s.chunks.item@[1] is Data
    &&& s.chunks.item@[2] matches AwcChunk::Format(f) && is_format_chunk(f, samples, sample_rate)
}

/// The whole audio container descriptor document.
#[derive(Debug, PartialEq, Eq)]
pub struct AwcXML {
    pub version: xml::Value<u8>,
    pub chunk_indices: xml::Value<String>,
    pub streams: xml::ItemList<AwcStream>,
}

} // verus!
