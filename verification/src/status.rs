//! Enumerated status indications: each is reported on the wire as a single
//! ASCII digit, and every code outside the fixed set is an invalid variant.
use vstd::prelude::*;

verus! {

use vstd::slice::slice_to_vec;
use vstd::string::StringExecFns;
use crate::error::InvalidVariantError;

/// Connection state of the audio (A2DP) profile.
#[derive(Debug, PartialEq, Eq, Copy, Clone, Structural)]
pub enum A2dpState {
    Unsupported,
    Standby,
    Connecting,
    Connected,
    Streaming,
}

/// Connection state of the remote-control (AVRCP) profile.
#[derive(Debug, PartialEq, Eq, Copy, Clone, Structural)]
pub enum AvrcpState {
    Unsupported,
    Standby,
    Connecting,
    Connected,
}

/// Playback transport state.
#[derive(Debug, PartialEq, Eq, Copy, Clone, Structural)]
pub enum PlayStat {
    Stopped,
    Playing,
    Paused,
    FastForwarding,
    FastRewinding,
}

/// Connection state of the serial-port (SPP) channel.
#[derive(Debug, PartialEq, Eq, Copy, Clone, Structural)]
pub enum SppStat {
    Unsupported,
    Standby,
    Connecting,
    Connected,
}

/// Connection state of the GATT channel.
#[derive(Debug, PartialEq, Eq, Copy, Clone, Structural)]
pub enum GattStat {
    Unsupported,
    Standby,
    Connecting,
    Connected,
}

/// The A2DP state encoded by a parameter field, if any.
pub open spec fn a2dp_state_of(s: Seq<u8>) -> Option<A2dpState> {
    if s == seq![0x30u8] {
        Some(A2dpState::Unsupported)
    } else if s == seq![0x31u8] {
        Some(A2dpState::Standby)
    } else if s == seq![0x32u8] {
        Some(A2dpState::Connecting)
    } else if s == seq![0x33u8] {
        Some(A2dpState::Connected)
    } else if s == seq![0x34u8] {
        Some(A2dpState::Streaming)
    } else {
        None
    }
}

/// The AVRCP state encoded by a parameter field, if any.
pub open spec fn avrcp_state_of(s: Seq<u8>) -> Option<AvrcpState> {
    if s == seq![0x30u8] {
        Some(AvrcpState::Unsupported)
    } else if s == seq![0x31u8] {
        Some(AvrcpState::Standby)
    } else if s == seq![0x32u8] {
        Some(AvrcpState::Connecting)
    } else if s == seq![0x33u8] {
        Some(AvrcpState::Connected)
    } else {
        None
    }
}

/// The playback state encoded by a parameter field, if any.
pub open spec fn play_stat_of(s: Seq<u8>) -> Option<PlayStat> {
    if s == seq![0x30u8] {
        Some(PlayStat::Stopped)
    } else if s == seq![0x31u8] {
        Some(PlayStat::Playing)
    } else if s == seq![0x32u8] {
        Some(PlayStat::Paused)
    } else if s == seq![0x33u8] {
        Some(PlayStat::FastForwarding)
    } else if s == seq![0x34u8] {
        Some(PlayStat::FastRewinding)
    } else {
        None
    }
}

/// The SPP state encoded by a parameter field, if any.
pub open spec fn spp_stat_of(s: Seq<u8>) -> Option<SppStat> {
    if s == seq![0x30u8] {
        Some(SppStat::Unsupported)
    } else if s == seq![0x31u8] {
        Some(SppStat::Standby)
    } else if s == seq![0x32u8] {
        Some(SppStat::Connecting)
    } else if s == seq![0x33u8] {
        Some(SppStat::Connected)
    } else {
        None
    }
}

/// The GATT state encoded by a parameter field, if any.
pub open spec fn gatt_stat_of(s: Seq<u8>) -> Option<GattStat> {
    if s == seq![0x30u8] {
        Some(GattStat::Unsupported)
    } else if s == seq![0x31u8] {
        Some(GattStat::Standby)
    } else if s == seq![0x32u8] {
        Some(GattStat::Connecting)
    } else if s == seq![0x33u8] {
        Some(GattStat::Connected)
    } else {
        None
    }
}

/// The single code byte of `value`, when `value` holds exactly one byte that
/// is an ASCII digit; `0xff` (no digit) otherwise.
fn code_byte(value: &[u8]) -> (r: u8)
    ensures
        (value@.len() == 1 && 0x30 <= value@[0] <= 0x39) ==> (r == value@[0] && value@ =~= seq![r]),
        !(value@.len() == 1 && 0x30 <= value@[0] <= 0x39) ==> r == 0xff,
{
    if value.len() == 1 {
        let b: u8 = value[0];
        if 0x30 <= b && b <= 0x39 {
            proof {
                assert(value@ =~= seq![b]);
            }
            return b;
        }
    }
    0xff
}

impl A2dpState {
    /// Decodes the single-byte A2DP state code.
    pub fn try_from(value: &[u8]) -> (r: Result<A2dpState, InvalidVariantError>)
        ensures
            match r {
                Ok(v) => a2dp_state_of(value@) == Some(v),
                Err(e) => a2dp_state_of(value@) is None && e@ == ("A2DPSTAT"@, value@),
            },
    {
        match code_byte(value) {
            0x30 => Ok(A2dpState::Unsupported),
            0x31 => Ok(A2dpState::Standby),
            0x32 => Ok(A2dpState::Connecting),
            0x33 => Ok(A2dpState::Connected),
            0x34 => Ok(A2dpState::Streaming),
            _ => Err(InvalidVariantError(String::from_str("A2DPSTAT"), slice_to_vec(value))),
        }
    }
}

impl AvrcpState {
    /// Decodes the single-byte AVRCP state code.
    pub fn try_from(value: &[u8]) -> (r: Result<AvrcpState, InvalidVariantError>)
        ensures
            match r {
                Ok(v) => avrcp_state_of(value@) == Some(v),
                Err(e) => avrcp_state_of(value@) is None && e@ == ("AVRCPSTAT"@, value@),
            },
    {
        match code_byte(value) {
            0x30 => Ok(AvrcpState::Unsupported),
            0x31 => Ok(AvrcpState::Standby),
            0x32 => Ok(AvrcpState::Connecting),
            0x33 => Ok(AvrcpState::Connected),
            _ => Err(InvalidVariantError(String::from_str("AVRCPSTAT"), slice_to_vec(value))),
        }
    }
}

impl PlayStat {
    /// Decodes the single-byte playback state code.
    pub fn try_from(value: &[u8]) -> (r: Result<PlayStat, InvalidVariantError>)
        ensures
            match r {
                Ok(v) => play_stat_of(value@) == Some(v),
                Err(e) => play_stat_of(value@) is None && e@ == ("PLAYSTAT"@, value@),
            },
    {
        match code_byte(value) {
            0x30 => Ok(PlayStat::Stopped),
            0x31 => Ok(PlayStat::Playing),
            0x32 => Ok(PlayStat::Paused),
            0x33 => Ok(PlayStat::FastForwarding),
            0x34 => Ok(PlayStat::FastRewinding),
            _ => Err(InvalidVariantError(String::from_str("PLAYSTAT"), slice_to_vec(value))),
        }
    }
}

impl SppStat {
    /// Decodes the single-byte SPP state code.
    pub fn try_from(value: &[u8]) -> (r: Result<SppStat, InvalidVariantError>)
        ensures
            match r {
                Ok(v) => spp_stat_of(value@) == Some(v),
                Err(e) => spp_stat_of(value@) is None && e@ == ("SPPSTAT"@, value@),
            },
    {
        match code_byte(value) {
            0x30 => Ok(SppStat::Unsupported),
            0x31 => Ok(SppStat::Standby),
            0x32 => Ok(SppStat::Connecting),
            0x33 => Ok(SppStat::Connected),
            _ => Err(InvalidVariantError(String::from_str("SPPSTAT"), slice_to_vec(value))),
        }
    }
}

impl GattStat {
    /// Decodes the single-byte GATT state code.
    pub fn try_from(value: &[u8]) -> (r: Result<GattStat, InvalidVariantError>)
        ensures
            match r {
                Ok(v) => gatt_stat_of(value@) == Some(v),
                Err(e) => gatt_stat_of(value@) is None && e@ == ("GATTSTAT"@, value@),
            },
    {
        match code_byte(value) {
            0x30 => Ok(GattStat::Unsupported),
            0x31 => Ok(GattStat::Standby),
            0x32 => Ok(GattStat::Connecting),
            0x33 => Ok(GattStat::Connected),
            _ => Err(InvalidVariantError(String::from_str("GATTSTAT"), slice_to_vec(value))),
        }
    }
}

} // verus!
