use vstd::prelude::*;

use crate::model::{
    classify, decoded_train, filled_name, same_but_name_and_status, InvalidBitmask,
    LiveRouteInfo, RouteInfo, Train, TrainError,
};
use crate::stations::{opt_view, route_names, StationNames};

verus! {

/// Where the train was last seen. Coordinates and distances are held as the
/// bit patterns of their IEEE-754 double values and carried through unchanged.
#[derive(Clone, Debug)]
pub struct CurrentLocation {
    pub latitude_bits: u64,
    pub longitude_bits: u64,
    pub station_code: String,
    pub status: String,
    pub distance_from_origin_km_bits: u64,
    pub distance_from_last_station_km_bits: u64,
}

/// The live-tracking part of a train's record.
#[derive(Clone, Debug)]
pub struct TrainLiveData {
    pub train_number: String,
    pub journey_date: String,
    pub last_updated_at: String,
    pub current_location: CurrentLocation,
    pub data_source: String,
    pub status_summary: String,
    pub route: Vec<LiveRouteInfo>,
}

/// What the provider returns on success: schedule, static route, and live data
/// where there is any yet.
#[derive(Clone, Debug)]
pub struct TrainStatusData {
    pub train: Train,
    pub route: Vec<RouteInfo>,
    pub live_data: Option<TrainLiveData>,
}

/// The provider's reply, told apart by its `success` flag.
#[derive(Clone, Debug)]
pub struct TrainStatusResponse {
    pub success: bool,
    pub data: Option<TrainStatusData>,
    pub error: Option<TrainError>,
}

/// The display-ready view of a train: decoded schedule and annotated live data.
#[derive(Clone, Debug)]
pub struct TrainLiveStatus {
    pub train: Train,
    pub live_data: Option<TrainLiveData>,
}

/// The outcome of a request to the provider: a view, or the provider's error.
#[derive(Clone, Debug)]
pub enum TrainStatusResult {
    Data(Box<TrainLiveStatus>),
    Error(TrainError),
}

/// A provider reply that does not hold what its `success` flag announces, or
/// whose schedule cannot be decoded.
#[derive(Clone, Copy, Debug, PartialEq, Eq, Structural)]
pub enum ResponseError {
    MissingData,
    MissingError,
    Bitmask(InvalidBitmask),
}

/// Stop `s` is stop `orig` with its name back-filled from `names` and its
/// status derived at time `now`.
pub open spec fn annotated_stop(
    orig: LiveRouteInfo,
    s: LiveRouteInfo,
    names: Seq<(Seq<char>, Seq<char>)>,
    now: u64,
) -> bool {
    &&& opt_view(s.station.name) == filled_name(orig, names)
    &&& s.status == classify(orig.status, orig.actual_arrival, orig.actual_departure, now)
    &&& same_but_name_and_status(orig, s)
}

/// Route `r` is route `orig`, stop for stop and in the same order, each stop
/// annotated from `names` at time `now`.
pub open spec fn annotated_route(
    orig: Seq<LiveRouteInfo>,
    r: Seq<LiveRouteInfo>,
    names: Seq<(Seq<char>, Seq<char>)>,
    now: u64,
) -> bool {
    &&& r.len() == orig.len()
    &&& forall|i: int| 0 <= i < orig.len() ==> annotated_stop(orig[i], #[trigger] r[i], names, now)
}

/// Live data `l` is live data `orig` with its route annotated from `names` at
/// time `now`, and nothing else changed.
pub open spec fn annotated_live_data(
    orig: TrainLiveData,
    l: TrainLiveData,
    names: Seq<(Seq<char>, Seq<char>)>,
    now: u64,
) -> bool {
    &&& annotated_route(orig.route@, l.route@, names, now)
    &&& l == (TrainLiveData { route: l.route, ..orig })
}

/// `s` is the view of `data` at time `now`: decoded schedule, and live data
/// (where there is any) annotated from the static route.
pub open spec fn live_status_of(data: TrainStatusData, s: TrainLiveStatus, now: u64) -> bool {
    &&& decoded_train(data.train, s.train)
    &&& match (data.live_data, s.live_data) {
        (Option::None, Option::None) => true,
        (Option::Some(orig), Option::Some(l)) => annotated_live_data(
            orig,
            l,
            route_names(data.route@),
            now,
        ),
        _ => false,
    }
}

/// Back-fills station names from `names` and derives each stop's status at
/// time `now`, keeping the stops and their order.
pub fn annotate_route(route: &mut Vec<LiveRouteInfo>, names: &StationNames, now: u64)
    ensures
        annotated_route(old(route)@, final(route)@, names@, now),
{
    let ghost orig = route@;
    let mut i: usize = 0;
    while i < route.len()
        invariant
            i <= route@.len(),
            route@.len() == orig.len(),
            forall|j: int| 0 <= j < i ==> annotated_stop(orig[j], #[trigger] route@[j], names@, now),
            forall|j: int| i <= j < route@.len() ==> route@[j] == orig[j],
        decreases route@.len() - i,
    {
        route[i].update_station_name(names);
        route[i].update_status(now);
        i = i + 1;
    }
}

impl TrainLiveStatus {
    /// The view of `data` at time `now`; an error where the schedule's
    /// running-days mask has a bit above Saturday.
    pub fn from_data(data: TrainStatusData, now: u64) -> (r: Result<TrainLiveStatus, InvalidBitmask>)
        ensures
            r is Ok <==> data.train.running_days_bitmap < 128,
            r matches Ok(s) ==> live_status_of(data, s, now),
            r matches Err(e) ==> e.bits == data.train.running_days_bitmap,
    {
        let names = StationNames::from_route(&data.route);
        let train = match data.train.with_running_days() {
            Ok(t) => t,
            Err(e) => {
                return Err(e);
            },
        };
        let live_data = match data.live_data {
            Some(mut l) => {
                annotate_route(&mut l.route, &names, now);
                Some(l)
            },
            None => None,
        };
        Ok(TrainLiveStatus { train, live_data })
    }
}

impl TrainStatusResult {
    /// Decodes the provider's reply by its `success` flag: on success the view
    /// of its data at time `now`, otherwise its error, unchanged.
    pub fn from_response(status: TrainStatusResponse, now: u64) -> (r: Result<
        TrainStatusResult,
        ResponseError,
    >)
        ensures
            status.success ==> match status.data {
                Option::None => r == Err::<TrainStatusResult, ResponseError>(
                    ResponseError::MissingData,
                ),
                Option::Some(d) => if d.train.running_days_bitmap < 128 {
                    r matches Ok(TrainStatusResult::Data(s)) && live_status_of(d, *s, now)
                } else {
                    r == Err::<TrainStatusResult, ResponseError>(
                        ResponseError::Bitmask(InvalidBitmask { bits: d.train.running_days_bitmap }),
                    )
                },
            },
            !status.success ==> match status.error {
                Option::None => r == Err::<TrainStatusResult, ResponseError>(
                    ResponseError::MissingError,
                ),
                Option::Some(e) => r == Ok::<TrainStatusResult, ResponseError>(
                    TrainStatusResult::Error(e),
                ),
            },
    {
        if status.success {
            match status.data {
                Some(d) => match TrainLiveStatus::from_data(d, now) {
                    Ok(s) => Ok(TrainStatusResult::Data(Box::new(s))),
                    Err(e) => Err(ResponseError::Bitmask(e)),
                },
                None => Err(ResponseError::MissingData),
            }
        } else {
            match status.error {
                Some(e) => Ok(TrainStatusResult::Error(e)),
                None => Err(ResponseError::MissingError),
            }
        }
    }
}

} // verus!
