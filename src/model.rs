use vstd::prelude::*;

use crate::days::{day_names, RunningDays};
use crate::stations::{name_for, opt_view, StationNames};

verus! {

/// A train's schedule record.
#[derive(Clone, Debug)]
pub struct Train {
    pub train_number: String,
    pub train_name: String,
    pub type_: String,
    pub zone: String,
    pub source_station_code: String,
    pub source_station_name: String,
    pub destination_station_code: String,
    pub destination_station_name: String,
    /// The days the train runs, one bit per weekday, Sunday in bit 0.
    pub running_days_bitmap: u8,
    /// The display form of `running_days_bitmap`, once decoded.
    pub running_days: String,
    pub return_train_number: String,
    pub travel_time_minutes: u32,
    pub total_halts: u32,
    pub distance_km: u32,
    pub avg_speed_kmph: u32,
}

/// A running-days mask with a bit set above Saturday.
#[derive(Clone, Copy, Debug, PartialEq, Eq, Structural)]
pub struct InvalidBitmask {
    pub bits: u8,
}

/// `t` is `orig` with its running days decoded.
pub open spec fn decoded_train(orig: Train, t: Train) -> bool {
    &&& t.running_days@ == day_names(orig.running_days_bitmap)
    &&& t == (Train { running_days: t.running_days, ..orig })
}

impl Train {
    /// The record with `running_days` set to the display form of its mask;
    /// an error where the mask has a bit above Saturday.
    pub fn with_running_days(self) -> (r: Result<Train, InvalidBitmask>)
        ensures
            r is Ok <==> self.running_days_bitmap < 128,
            r matches Ok(t) ==> decoded_train(self, t),
            r matches Err(e) ==> e.bits == self.running_days_bitmap,
    {
        let mut train = self;
        match RunningDays::from_bits(train.running_days_bitmap) {
            Some(days) => {
                train.running_days = days.as_names();
                Ok(train)
            },
            None => Err(InvalidBitmask { bits: train.running_days_bitmap }),
        }
    }
}

/// A stop of the static schedule.
#[derive(Clone, Debug)]
pub struct RouteInfo {
    pub id: Option<u64>,
    pub sequence: u32,
    pub station_code: String,
    pub station_name: String,
    pub is_halt: u8,
    pub scheduled_arrival: Option<u32>,
    pub scheduled_departure: Option<u32>,
    pub halt_duration_minutes: u32,
    pub platform: Option<String>,
    pub day: u8,
    pub speed_on_section_kmph: Option<u32>,
    pub track_type: String,
}

/// A station of the live feed; the feed may leave out its name.
#[derive(Clone, Debug)]
pub struct Station {
    pub code: String,
    pub name: Option<String>,
}

/// Where a stop stands against the current time.
#[derive(Clone, Copy, Debug, PartialEq, Eq, Structural)]
pub enum LiveStatus {
    Departed,
    Unknown,
    Arrived,
    Upcoming,
}

impl Default for LiveStatus {
    fn default() -> (r: LiveStatus)
        ensures
            r == LiveStatus::Unknown,
    {
        LiveStatus::Unknown
    }
}

/// The status of a stop whose status was `prev`, given its actual arrival and
/// departure times, at time `now`. The first rule that applies decides: a
/// departure before `now`, an arrival at or before `now`, an arrival after
/// `now`; where none applies the status stays as it was.
pub open spec fn classify(
    prev: LiveStatus,
    actual_arrival: Option<u64>,
    actual_departure: Option<u64>,
    now: u64,
) -> LiveStatus {
    if actual_departure matches Option::Some(t) && t < now {
        LiveStatus::Departed
    } else if actual_arrival matches Option::Some(t) && t <= now {
        LiveStatus::Arrived
    } else if actual_arrival matches Option::Some(t) && t > now {
        LiveStatus::Upcoming
    } else {
        prev
    }
}

/// A stop of the live feed.
#[derive(Clone, Debug)]
pub struct LiveRouteInfo {
    pub station: Station,
    pub scheduled_arrival: u64,
    pub scheduled_departure: Option<u64>,
    pub actual_arrival: Option<u64>,
    pub actual_departure: Option<u64>,
    pub delay_arrival_minutes: Option<i32>,
    pub delay_departure_minutes: Option<i32>,
    pub platform: Option<String>,
    pub status: LiveStatus,
}

/// The station name that `stop` has once back-filled from `names`: its own
/// where it has one, else the one `names` gives to its code.
pub open spec fn filled_name(stop: LiveRouteInfo, names: Seq<(Seq<char>, Seq<char>)>) -> Option<
    Seq<char>,
> {
    match stop.station.name {
        Option::Some(n) => Option::Some(n@),
        Option::None => name_for(names, stop.station.code@),
    }
}

/// `s` is `orig` with its station name and its status replaced, and nothing
/// else changed.
pub open spec fn same_but_name_and_status(orig: LiveRouteInfo, s: LiveRouteInfo) -> bool {
    s == (LiveRouteInfo {
        station: Station { name: s.station.name, ..orig.station },
        status: s.status,
        ..orig
    })
}

/// An error reported by the provider, carried through unchanged.
#[derive(Clone, Debug)]
pub struct TrainError {
    pub code: String,
    pub message: String,
    pub status_code: Option<u16>,
    pub timestamp: Option<String>,
    pub retryable: Option<bool>,
}

impl LiveRouteInfo {
    /// Fills in the station name from `map` where the feed left it out.
    pub fn update_station_name(&mut self, map: &StationNames)
        ensures
            opt_view(final(self).station.name) == filled_name(*old(self), map@),
            old(self).station.name is Some ==> *final(self) == *old(self),
            same_but_name_and_status(*old(self), *final(self)),
            final(self).status == old(self).status,
    {
        if self.station.name.is_none() {
            self.station.name = map.get(&self.station.code);
        }
    }

    /// Sets the status from the actual times against `curr_time`.
    pub fn update_status(&mut self, curr_time: u64)
        ensures
            final(self).status == classify(
                old(self).status,
                old(self).actual_arrival,
                old(self).actual_departure,
                curr_time,
            ),
            *final(self) == (LiveRouteInfo { status: final(self).status, ..*old(self) }),
    {
        let departed = match self.actual_departure {
            Some(t) => t < curr_time,
            None => false,
        };
        if departed {
            self.status = LiveStatus::Departed;
        } else if let Some(t) = self.actual_arrival {
            if t <= curr_time {
                self.status = LiveStatus::Arrived;
            } else {
                self.status = LiveStatus::Upcoming;
            }
        }
    }
}

} // verus!
