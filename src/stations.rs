use vstd::prelude::*;

use crate::model::RouteInfo;

verus! {

/// The name that `names` gives to station `code`: the name of the last pair
/// whose code is `code`, or none where no pair has it.
pub open spec fn name_for(names: Seq<(Seq<char>, Seq<char>)>, code: Seq<char>) -> Option<Seq<char>>
    decreases names.len(),
{
    if names.len() == 0 {
        Option::None
    } else if names.last().0 == code {
        Option::Some(names.last().1)
    } else {
        name_for(names.drop_last(), code)
    }
}

/// The (code, name) pairs of a schedule route, in route order.
pub open spec fn route_names(route: Seq<RouteInfo>) -> Seq<(Seq<char>, Seq<char>)> {
    route.map_values(|r: RouteInfo| (r.station_code@, r.station_name@))
}

/// The view of an optional string.
pub open spec fn opt_view(s: Option<String>) -> Option<Seq<char>> {
    match s {
        Option::Some(t) => Option::Some(t@),
        Option::None => Option::None,
    }
}

/// A table from station code to station name, taken from a schedule route.
/// Where a code occurs more than once, its last occurrence gives the name.
#[derive(Clone, Debug)]
pub struct StationNames {
    entries: Vec<(String, String)>,
}

impl StationNames {
    /// The (code, name) pairs of the table, in the order they were added.
    pub closed spec fn view(&self) -> Seq<(Seq<char>, Seq<char>)> {
        self.entries@.map_values(|e: (String, String)| (e.0@, e.1@))
    }

    /// The table of the stations of a schedule route.
    pub fn from_route(route: &Vec<RouteInfo>) -> (r: StationNames)
        ensures
            r@ == route_names(route@),
    {
        let mut entries: Vec<(String, String)> = Vec::new();
        let mut i: usize = 0;
        while i < route.len()
            invariant
                i <= route@.len(),
                entries@.map_values(|e: (String, String)| (e.0@, e.1@)) == route_names(
                    route@.subrange(0, i as int),
                ),
            decreases route@.len() - i,
        {
            let stop = &route[i];
            let ghost before = entries@;
            entries.push((stop.station_code.clone(), stop.station_name.clone()));
            proof {
                assert(route@.subrange(0, i + 1) =~= route@.subrange(0, i as int).push(route@[i as int]));
                assert(entries@ =~= before.push(entries@.last()));
                assert(entries@.map_values(|e: (String, String)| (e.0@, e.1@)) =~= before.map_values(
                    |e: (String, String)| (e.0@, e.1@),
                ).push((stop.station_code@, stop.station_name@)));
            }
            i = i + 1;
        }
        proof {
            assert(route@.subrange(0, route@.len() as int) == route@);
        }
        StationNames { entries }
    }

    /// The name of station `code`, if the table has it.
    pub fn get(&self, code: &String) -> (r: Option<String>)
        ensures
            opt_view(r) == name_for(self@, code@),
    {
        let ghost names = self@;
        let mut i: usize = self.entries.len();
        proof {
            assert(names.subrange(0, i as int) =~= names);
        }
        while i > 0
            invariant
                i <= self.entries@.len(),
                names == self@,
                name_for(names, code@) == name_for(names.subrange(0, i as int), code@),
            decreases i,
        {
            proof {
                assert(names.subrange(0, i as int).drop_last() == names.subrange(0, i - 1));
            }
            let entry = &self.entries[i - 1];
            if entry.0 == *code {
                return Some(entry.1.clone());
            }
            i = i - 1;
        }
        None
    }
}

} // verus!
