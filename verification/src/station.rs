//! Candidates returned by the free-text stop lookup, and the resolution
//! rule that picks the station identifier a journey query needs.

use vstd::prelude::*;

verus! {

/// A station candidate of the stop lookup.
#[derive(Clone, Debug)]
pub struct StationResp {
    pub place: String,
    pub name: String,
    pub global_id: String,
    pub diva_id: i32,
    pub has_zoom_data: bool,
    pub transport_types: Vec<String>,
    pub aliases: String,
    pub tariff_zones: String,
}

/// A street-address candidate of the stop lookup.
#[derive(Clone, Debug)]
pub struct AddressResp {
    pub place: String,
    pub name: String,
    pub post_code: String,
    pub street: String,
    pub house_number: String,
}

/// A point-of-interest candidate of the stop lookup.
#[derive(Clone, Debug)]
pub struct PoiResponse {
    pub place: String,
    pub name: String,
}

/// One candidate of the stop lookup, tagged by kind.
#[derive(Clone, Debug)]
pub enum Location {
    Station(StationResp),
    Address(AddressResp),
    Poi(PoiResponse),
}

/// The identifier of the first station candidate of a lookup answer;
/// address and point-of-interest candidates are passed over.  `None` when
/// no candidate is a station.
pub open spec fn spec_first_station_id(locs: Seq<Location>) -> Option<Seq<char>>
    decreases locs.len(),
{
    if locs.len() == 0 {
        None
    } else {
        match locs[0] {
            Location::Station(s) => Some(s.global_id@),
            _ => spec_first_station_id(locs.drop_first()),
        }
    }
}

/// Resolves a lookup answer to a station identifier: the identifier of the
/// first candidate that is a station, or `None` when there is none.
pub fn first_station_id(locs: &Vec<Location>) -> (r: Option<String>)
    ensures
        match r {
            Some(id) => spec_first_station_id(locs@) == Some(id@),
            None => spec_first_station_id(locs@) is None,
        },
{
    let n = locs.len();
    proof {
        assert(locs@.skip(0) =~= locs@);
    }
    for i in 0..n
        invariant
            n == locs@.len(),
            spec_first_station_id(locs@) == spec_first_station_id(locs@.skip(i as int)),
            forall|j: int| 0 <= j < i ==> !(locs@[j] is Station),
    {
        proof {
            assert(locs@.skip(i as int).len() > 0);
            assert(locs@.skip(i as int)[0] == locs@[i as int]);
        }
        match &locs[i] {
            Location::Station(s) => {
                return Some(s.global_id.clone());
            },
            _ => {
                proof {
                    assert(locs@.skip(i as int).drop_first() =~= locs@.skip(i + 1));
                }
            },
        }
    }
    proof {
        assert(locs@.skip(n as int).len() == 0);
    }
    None
}

} // verus!
