//! Itinerary records returned by the journey query, and the verified piece
//! of the query itself: the transport-type filter fragment.
//!
//! The records hold the plain values the client reads: stop names, planned
//! times, delay minutes, line labels and free-text messages.  Coordinates
//! and other fields of the wire format that nothing here consumes are left
//! to the network layer.

use vstd::prelude::*;
use vstd::string::*;
use crate::datetime::DateTime;

verus! {

/// A transit line serving one leg of a connection.
#[derive(Clone, Debug)]
pub struct Line {
    pub label: String,
    pub transport_type: String,
    pub destination: String,
    pub train_type: String,
    pub network: String,
    pub sev: bool,
}

/// A section of the walking path of a leg, by coordinate indices.
#[derive(Clone, Copy, Debug)]
pub struct PathDescription {
    pub from_path_coord_idx: isize,
    pub to_path_coord_idx: isize,
    pub level: isize,
}

/// Tariff information of a connection.
#[derive(Clone, Debug)]
pub struct TicketingInformation {
    pub zones: Vec<usize>,
    pub alternative_zones: Vec<usize>,
    pub unified_ticket_ids: Vec<String>,
    pub banner_hash: Option<String>,
}

/// A stop of a connection leg with its planned departure and live delay.
#[derive(Clone, Debug)]
pub struct Station {
    pub station_global_id: String,
    pub station_diva_id: usize,
    pub platform: usize,
    pub place: String,
    pub name: String,
    pub planned_departure: DateTime,
    pub departure_delay_in_minutes: Option<isize>,
    pub arrival_delay_in_minutes: Option<isize>,
    pub transport_types: Vec<String>,
    pub occupancy: String,
}

/// One leg of a connection: a line ridden from one stop to another.
#[derive(Clone, Debug)]
pub struct ConnectionPart {
    pub from: Station,
    pub to: Station,
    pub intermediate_stops: Vec<Station>,
    pub no_change_required: bool,
    pub line: Line,
    pub path_description: Vec<PathDescription>,
    pub exit_letter: String,
    pub occupancy: String,
    pub messages: Vec<String>,
}

/// One complete journey option, composed of ordered legs.
#[derive(Clone, Debug)]
pub struct Connection {
    pub unique_id: usize,
    pub parts: Vec<ConnectionPart>,
    pub ticketing_information: TicketingInformation,
}

/// The transport-type names the query asks for, each followed by a comma,
/// in the fixed order the service expects.
pub open spec fn spec_transport_segments(
    include_ubahn: bool,
    include_bus: bool,
    include_tram: bool,
    include_sbahn: bool,
    include_taxi: bool,
) -> Seq<char> {
    (if include_ubahn {
        "UBAHN,"@
    } else {
        Seq::<char>::empty()
    }) + (if include_bus {
        "BUS,"@
    } else {
        Seq::<char>::empty()
    }) + (if include_tram {
        "TRAM,"@
    } else {
        Seq::<char>::empty()
    }) + (if include_sbahn {
        "SBAHN,"@
    } else {
        Seq::<char>::empty()
    }) + (if include_taxi {
        "RUFTAXI,"@
    } else {
        Seq::<char>::empty()
    })
}

/// The transport-type filter fragment of the journey query: the chosen
/// names joined by commas, with the trailing comma removed.
pub open spec fn spec_transport_types(
    include_ubahn: bool,
    include_bus: bool,
    include_tram: bool,
    include_sbahn: bool,
    include_taxi: bool,
) -> Seq<char> {
    let full = spec_transport_segments(
        include_ubahn,
        include_bus,
        include_tram,
        include_sbahn,
        include_taxi,
    );
    if full.len() > 0 {
        full.take(full.len() - 1)
    } else {
        full
    }
}

/// Builds the transport-type filter fragment of the journey query.
pub fn transport_types_param(
    include_ubahn: bool,
    include_bus: bool,
    include_tram: bool,
    include_sbahn: bool,
    include_taxi: bool,
) -> (r: String)
    ensures
        r@ == spec_transport_types(
            include_ubahn,
            include_bus,
            include_tram,
            include_sbahn,
            include_taxi,
        ),
{
    proof {
        reveal_strlit("UBAHN,");
        reveal_strlit("BUS,");
        reveal_strlit("TRAM,");
        reveal_strlit("SBAHN,");
        reveal_strlit("RUFTAXI,");
    }
    let mut out = String::new();
    if include_ubahn {
        out.append("UBAHN,");
    }
    if include_bus {
        out.append("BUS,");
    }
    if include_tram {
        out.append("TRAM,");
    }
    if include_sbahn {
        out.append("SBAHN,");
    }
    if include_taxi {
        out.append("RUFTAXI,");
    }
    proof {
        assert(out@ =~= spec_transport_segments(
            include_ubahn,
            include_bus,
            include_tram,
            include_sbahn,
            include_taxi,
        ));
    }
    let n = out.as_str().unicode_len();
    if n > 0 {
        let trimmed = out.as_str().substring_char(0, n - 1);
        let r = trimmed.to_owned();
        proof {
            assert(r@ =~= spec_transport_types(
                include_ubahn,
                include_bus,
                include_tram,
                include_sbahn,
                include_taxi,
            ));
        }
        r
    } else {
        out
    }
}

} // verus!
