//! Sound-header metadata attached to every imported entry.

use vstd::prelude::*;
use vstd::string::StringExecFns;
use crate::xml;

verus! {

/// Per-entry sound header: volume, attenuation curve, panning and echo
/// parameters, written out with the audio pack descriptor.
#[derive(Debug, PartialEq, Eq)]
pub struct Header {
    /// Volume in dB steps; 100 is the neutral setting.
    pub volume: u16,
    /// Hash of the distance attenuation curve.
    pub volume_curve: String,
    /// How far the sound can be heard.
    pub volume_curve_distance: u16,
    pub doppler_factor: Option<u16>,
    /// Category hash the entry is filed under.
    pub category: String,
    /// Fade-in time.
    pub attack_time: Option<u16>,
    /// Fade-out time.
    pub release_time: Option<u16>,
    /// Stereo panning selector; 0 keeps the signal stereo.
    pub unk20: u8,
    pub echo_x: Option<u16>,
    pub echo_y: Option<u16>,
    pub echo_z: Option<u16>,
}

/// The settings of a freshly imported entry's header: neutral volume, the
/// stock attenuation curve and category, no fades and no echo.
pub open spec fn is_default_header(h: Header) -> bool {
    &&& h.volume == 100
    &&& h.volume_curve@ == "C2770146"@
    &&& h.volume_curve_distance == 5
    &&& h.category@ == "02C7B342"@
    &&& h.doppler_factor is None
    &&& h.attack_time is None
    &&& h.release_time is None
    &&& h.unk20 == 0
    &&& h.echo_x is None
    &&& h.echo_y is None
    &&& h.echo_z is None
}

impl Default for Header {
    /// The header every imported entry starts with.
    fn default() -> (r: Self)
        ensures
            is_default_header(r),
    {
        Self {
            volume: 100,
            volume_curve: String::from_str("C2770146"),
            volume_curve_distance: 5,
            category: String::from_str("02C7B342"),
            doppler_factor: None,
            attack_time: None,
            release_time: None,
            unk20: 0,
            echo_x: None,
            echo_y: None,
            echo_z: None,
        }
    }
}

/// The container-path listing of a sound metadata document.
#[derive(Debug, PartialEq, Eq)]
pub struct Dat54Xml {
    pub version: xml::Value<u8>,
    pub container_paths: xml::ItemList<xml::InlineValue>,
}

} // verus!
