//! Driver station values: the packed control word, alliance stations, and
//! match information.
//!
//! The driver station link itself is plain native I/O; what stands here is
//! the decoding of the values it carries — the control word's bit fields and
//! the alliance station mapping — and the plain data model of the match
//! information record.

use vstd::prelude::*;

verus! {

/// The driver station control word as the native library packs it: one flag
/// per bit, from the least significant bit up.
#[derive(Clone, Copy, Debug, PartialEq, Eq, Hash, Default, Structural)]
pub struct ControlWord(pub u32);

impl ControlWord {
    /// Whether the robot is enabled (bit 0).
    pub fn enabled(&self) -> (r: bool)
        ensures
            r == (self.0 & 1 != 0),
    {
        self.0 & 1 != 0
    }

    /// Whether the robot is in autonomous mode (bit 1).
    pub fn autonomous(&self) -> (r: bool)
        ensures
            r == ((self.0 >> 1) & 1 != 0),
    {
        (self.0 >> 1) & 1 != 0
    }

    /// Whether the robot is in test mode (bit 2).
    pub fn test(&self) -> (r: bool)
        ensures
            r == ((self.0 >> 2) & 1 != 0),
    {
        (self.0 >> 2) & 1 != 0
    }

    /// Whether the robot is emergency-stopped (bit 3).
    pub fn emergency_stop(&self) -> (r: bool)
        ensures
            r == ((self.0 >> 3) & 1 != 0),
    {
        (self.0 >> 3) & 1 != 0
    }

    /// Whether the field management system is attached (bit 4).
    pub fn fms_attached(&self) -> (r: bool)
        ensures
            r == ((self.0 >> 4) & 1 != 0),
    {
        (self.0 >> 4) & 1 != 0
    }

    /// Whether the driver station is attached (bit 5).
    pub fn ds_attached(&self) -> (r: bool)
        ensures
            r == ((self.0 >> 5) & 1 != 0),
    {
        (self.0 >> 5) & 1 != 0
    }
}

/// The alliance station identifiers as the native library enumerates them.
#[derive(Clone, Copy, Debug, PartialEq, Eq, Hash, Structural)]
pub enum AllianceStationID {
    Red1,
    Red2,
    Red3,
    Blue1,
    Blue2,
    Blue3,
}

impl AllianceStationID {
    /// The wire value of the identifier.
    pub fn as_i32(&self) -> (r: i32)
        ensures
            *self is Red1 ==> r == 0,
            *self is Red2 ==> r == 1,
            *self is Red3 ==> r == 2,
            *self is Blue1 ==> r == 3,
            *self is Blue2 ==> r == 4,
            *self is Blue3 ==> r == 5,
    {
        match *self {
            AllianceStationID::Red1 => 0,
            AllianceStationID::Red2 => 1,
            AllianceStationID::Red3 => 2,
            AllianceStationID::Blue1 => 3,
            AllianceStationID::Blue2 => 4,
            AllianceStationID::Blue3 => 5,
        }
    }
}

/// Where the driver station is on the field: an alliance color with a
/// position from 1 to 3, or an invalid station.
#[derive(Clone, Copy, Debug, PartialEq, Eq, Hash, Structural)]
pub enum AllianceStation {
    /// Red alliance station.
    Red(u8),
    /// Blue alliance station.
    Blue(u8),
    /// Invalid station.
    Invalid,
}

/// Decode an alliance station identifier into its color and position.
pub fn station_of_id(id: AllianceStationID) -> (r: AllianceStation)
    ensures
        id is Red1 ==> r == AllianceStation::Red(1),
        id is Red2 ==> r == AllianceStation::Red(2),
        id is Red3 ==> r == AllianceStation::Red(3),
        id is Blue1 ==> r == AllianceStation::Blue(1),
        id is Blue2 ==> r == AllianceStation::Blue(2),
        id is Blue3 ==> r == AllianceStation::Blue(3),
{
    match id {
        AllianceStationID::Red1 => AllianceStation::Red(1),
        AllianceStationID::Red2 => AllianceStation::Red(2),
        AllianceStationID::Red3 => AllianceStation::Red(3),
        AllianceStationID::Blue1 => AllianceStation::Blue(1),
        AllianceStationID::Blue2 => AllianceStation::Blue(2),
        AllianceStationID::Blue3 => AllianceStation::Blue(3),
    }
}

/// The kind of match being played.
#[derive(Clone, Copy, Debug, PartialEq, Eq, Hash, Structural)]
pub enum MatchType {
    /// No match is scheduled.
    NoMatch,
    Practice,
    Qualification,
    Elimination,
}

/// Match information as reported by the driver station, with the native
/// record's string pointers modeled as owned strings.
#[derive(Clone, Debug, PartialEq, Eq, Hash)]
pub struct MatchInfo {
    pub event_name: String,
    pub match_type: MatchType,
    pub match_number: u16,
    pub replay_number: u8,
    pub game_specific_message: String,
}

impl MatchInfo {
    /// Assemble a match information record from the decoded native fields.
    pub fn new(
        event_name: String,
        match_type: MatchType,
        match_number: u16,
        replay_number: u8,
        game_specific_message: String,
    ) -> (r: MatchInfo)
        ensures
            r.event_name@ == event_name@,
            r.match_type == match_type,
            r.match_number == match_number,
            r.replay_number == replay_number,
            r.game_specific_message@ == game_specific_message@,
    {
        MatchInfo { event_name, match_type, match_number, replay_number, game_specific_message }
    }
}

} // verus!
