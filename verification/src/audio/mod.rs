//! The microphone as the rest of the library sees it: what can be asked of it,
//! and how it can fail.

pub mod endpoint;
pub mod fake;
pub mod hotplug;
pub mod meter;
pub mod thread;

use crate::scalar::{one, zero, Scalar, ZERO_BITS};
use crate::span::Span;
use crate::text::duration_text;
use vstd::prelude::*;

verus! {

/// The bits of `-60.0`, the bottom of the level meter in dBFS. Anything at or
/// below it reads as silence.
pub const DBFS_FLOOR_BITS: u32 = 0xC270_0000;

/// `-60.0`.
pub open spec fn dbfs_floor() -> Scalar {
    Scalar { bits: DBFS_FLOOR_BITS }
}

/// Why a microphone call failed.
#[derive(Debug)]
pub enum AudioError {
    NoDevice,
    DeviceNotFound(String),
    /// The audio worker is gone: every later call will fail too. A failed call
    /// to the operating system, by contrast, may well succeed the next time.
    ThreadTerminated,
    /// The audio worker took a command and did not answer within so long: it is
    /// alive but stuck.
    Timeout(Span),
    Windows(String),
}

/// What the user reads of an error.
pub open spec fn error_text(e: AudioError) -> Seq<char> {
    match e {
        AudioError::NoDevice => "no capture device available"@,
        AudioError::DeviceNotFound(id) => "device "@ + id@ + " not found"@,
        AudioError::ThreadTerminated => "audio thread terminated"@,
        AudioError::Timeout(bound) => "audio thread did not respond within "@ + bound.text(),
        AudioError::Windows(message) => "windows audio error: "@ + message@,
    }
}

impl AudioError {
    /// What the user reads of the error.
    pub fn message(&self) -> (r: String)
        ensures
            r@ == error_text(*self),
    {
        match self {
            AudioError::NoDevice => "no capture device available".to_owned(),
            AudioError::DeviceNotFound(id) => {
                "device ".to_owned().concat(id.as_str()).concat(" not found")
            },
            AudioError::ThreadTerminated => "audio thread terminated".to_owned(),
            AudioError::Timeout(bound) => {
                "audio thread did not respond within ".to_owned().concat(bound.show().as_str())
            },
            AudioError::Windows(message) => {
                "windows audio error: ".to_owned().concat(message.as_str())
            },
        }
    }
}

/// A capture device, as the device picker lists it.
#[derive(Debug, Clone, PartialEq)]
pub struct DeviceInfo {
    pub id: String,
    pub name: String,
    pub is_default: bool,
}

/// A string that may be missing, by its characters.
pub open spec fn opt_text<S: View<V = Seq<char>>>(s: Option<S>) -> Option<Seq<char>> {
    match s {
        Some(s) => Some(s@),
        None => None,
    }
}

/// A microphone that can be driven from one thread.
///
/// What a call may do is left to each implementor: for every operation the
/// trait has a relation between the microphone before the call, the arguments,
/// the microphone after the call and the answer. By default anything may happen,
/// as with a device that other programs share; a microphone whose behaviour is
/// known says more.
pub trait MicBackend {
    /// What listing the devices may answer.
    open spec fn lists(&self, r: Result<Vec<DeviceInfo>, AudioError>) -> bool {
        true
    }

    /// What selecting a device may do and answer; without an id, the system
    /// default.
    open spec fn selects(&self, id: Option<Seq<char>>, post: &Self, r: Result<(), AudioError>) -> bool {
        true
    }

    /// What a mute read may answer.
    open spec fn reads_muted(&self, r: Result<bool, AudioError>) -> bool {
        true
    }

    /// What a mute write may do and answer.
    open spec fn writes_muted(&self, muted: bool, post: &Self, r: Result<(), AudioError>) -> bool {
        true
    }

    /// What a volume read may answer.
    open spec fn reads_volume(&self, r: Result<Scalar, AudioError>) -> bool {
        true
    }

    /// What a volume write may do and answer.
    open spec fn writes_volume(&self, level: Scalar, post: &Self, r: Result<(), AudioError>) -> bool {
        true
    }

    /// What a peak read may answer.
    open spec fn reads_peak(&self, r: Result<Scalar, AudioError>) -> bool {
        true
    }

    fn list_devices(&self) -> (r: Result<Vec<DeviceInfo>, AudioError>)
        ensures
            self.lists(r),
    ;

    fn select(&mut self, id: Option<&str>) -> (r: Result<(), AudioError>)
        ensures
            old(self).selects(opt_text(id), final(self), r),
    ;

    fn is_muted(&self) -> (r: Result<bool, AudioError>)
        ensures
            self.reads_muted(r),
    ;

    fn set_muted(&mut self, muted: bool) -> (r: Result<(), AudioError>)
        ensures
            old(self).writes_muted(muted, final(self), r),
    ;

    fn volume(&self) -> (r: Result<Scalar, AudioError>)
        ensures
            self.reads_volume(r),
    ;

    fn set_volume(&mut self, level: Scalar) -> (r: Result<(), AudioError>)
        ensures
            old(self).writes_volume(level, final(self), r),
    ;

    fn peak(&self) -> (r: Result<Scalar, AudioError>)
        ensures
            self.reads_peak(r),
    ;
}

/// A microphone that can also cross a thread boundary. Every [`MicBackend`]
/// that is `Send` is one; a device bound to the thread that opened it is not.
pub trait MicControl: MicBackend + Send {

}

impl<T: MicBackend + Send + ?Sized> MicControl for T {

}

/// The dBFS reading of a peak amplitude, given `decibels`, which is twenty times
/// the peak's decimal logarithm: the floor for silence, and otherwise the
/// decibels, moved into the meter's range.
pub open spec fn dbfs_reading(peak: Scalar, decibels: Scalar) -> Scalar {
    if peak.at_most(zero()) {
        dbfs_floor()
    } else {
        decibels.clamped(dbfs_floor(), zero())
    }
}

/// The dBFS reading of a peak amplitude. `decibels` is twenty times the peak's
/// decimal logarithm, and does not matter where that has none.
pub fn peak_to_dbfs(peak: Scalar, decibels: Scalar) -> (r: Scalar)
    ensures
        r == dbfs_reading(peak, decibels),
        zero().below(peak) && dbfs_floor().at_most(decibels) && decibels.at_most(zero()) ==> r
            == decibels,
{
    if peak.le(Scalar::from_bits(ZERO_BITS)) {
        return Scalar::from_bits(DBFS_FLOOR_BITS);
    }
    decibels.clamp(Scalar::from_bits(DBFS_FLOOR_BITS), Scalar::from_bits(ZERO_BITS))
}

/// Whether `decibels` may be what a peak's logarithm comes to: a number wherever
/// the peak is more than silence, and not below zero from full scale on.
pub open spec fn may_measure(peak: Scalar, decibels: Scalar) -> bool {
    &&& zero().below(peak) ==> !decibels.is_nan()
    &&& one().at_most(peak) ==> zero().at_most(decibels)
}

/// A reading lies between the floor and zero, so that it is a finite number. At
/// silence it is exactly the floor, and from full scale on it is zero.
pub proof fn readings_stay_on_the_meter(peak: Scalar, decibels: Scalar)
    requires
        !peak.is_nan(),
        may_measure(peak, decibels),
    ensures
        dbfs_floor().at_most(dbfs_reading(peak, decibels)),
        dbfs_reading(peak, decibels).at_most(zero()),
        peak.at_most(zero()) ==> dbfs_reading(peak, decibels) == dbfs_floor(),
        one().at_most(peak) ==> zero().at_most(dbfs_reading(peak, decibels)),
{
}

/// A louder peak never reads lower, as long as the decibels of two peaks that are
/// more than silence are in the order of the peaks.
pub proof fn a_louder_peak_never_reads_lower(
    a: Scalar,
    a_decibels: Scalar,
    b: Scalar,
    b_decibels: Scalar,
)
    requires
        a.at_most(b),
        may_measure(a, a_decibels),
        may_measure(b, b_decibels),
        zero().below(a) ==> a_decibels.at_most(b_decibels),
    ensures
        dbfs_reading(a, a_decibels).at_most(dbfs_reading(b, b_decibels)),
{
}

/// On the meter the reading is the decibels themselves, bit for bit: for every
/// peak above zero whose decibels lie between the floor and zero. What lies
/// outside reads as the end that it passed.
pub proof fn the_reading_is_the_decibels(peak: Scalar, decibels: Scalar)
    requires
        zero().below(peak),
    ensures
        dbfs_floor().at_most(decibels) && decibels.at_most(zero()) ==> dbfs_reading(peak, decibels)
            == decibels,
        decibels.below(dbfs_floor()) ==> dbfs_reading(peak, decibels) == dbfs_floor(),
        zero().below(decibels) ==> dbfs_reading(peak, decibels) == zero(),
        decibels.is_nan() ==> dbfs_reading(peak, decibels) == decibels,
{
}

/// The same by the bits: a positive peak with decibels from `-60.0` to `-0.0`, or
/// `0.0`, reads as these decibels; and any peak at or below zero reads as `-60.0`.
pub proof fn readings_by_their_bits(peak: Scalar, decibels: Scalar)
    ensures
        1 <= peak.bits <= 0x7F80_0000 && (0x8000_0000 <= decibels.bits <= 0xC270_0000
            || decibels.bits == 0) ==> dbfs_reading(peak, decibels).bits == decibels.bits,
        1 <= peak.bits <= 0x7F80_0000 && 0xC270_0000 < decibels.bits <= 0xFF80_0000
            ==> dbfs_reading(peak, decibels).bits == 0xC270_0000,
        1 <= peak.bits <= 0x7F80_0000 && 0 < decibels.bits <= 0x7F80_0000 ==> dbfs_reading(
            peak,
            decibels,
        ).bits == 0,
        peak.bits == 0 || 0x8000_0000 <= peak.bits <= 0xFF80_0000 ==> dbfs_reading(
            peak,
            decibels,
        ).bits == 0xC270_0000,
{
}

/// What the user reads of each error.
pub proof fn errors_read_as_they_are(text: String, bound: Span)
    ensures
        error_text(AudioError::NoDevice) == "no capture device available"@,
        error_text(AudioError::DeviceNotFound(text)) == "device "@ + text@ + " not found"@,
        error_text(AudioError::ThreadTerminated) == "audio thread terminated"@,
        error_text(AudioError::Timeout(bound)) == "audio thread did not respond within "@
            + duration_text(bound.secs(), bound.nanos()),
        error_text(AudioError::Windows(text)) == "windows audio error: "@ + text@,
{
}

/// A string that is there is taken by its characters, and one that is missing is
/// missing.
pub proof fn a_string_is_taken_by_its_characters(s: Option<String>)
    ensures
        s matches Some(t) ==> opt_text(s) == Some(t@),
        s is None ==> opt_text(s) is None,
{
}

} // verus!
