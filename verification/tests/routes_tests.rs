use mvg_tui::routes::transport_types_param;
use mvg_tui::station::{first_station_id, AddressResp, Location, PoiResponse, StationResp};

#[test]
fn all_transport_types_join_with_commas() {
    assert_eq!(
        transport_types_param(true, true, true, true, true),
        "UBAHN,BUS,TRAM,SBAHN,RUFTAXI"
    );
    assert_eq!(
        transport_types_param(true, true, true, true, false),
        "UBAHN,BUS,TRAM,SBAHN"
    );
}

#[test]
fn single_transport_types_carry_no_comma() {
    assert_eq!(transport_types_param(true, false, false, false, false), "UBAHN");
    assert_eq!(transport_types_param(false, true, false, false, false), "BUS");
    assert_eq!(transport_types_param(false, false, true, false, false), "TRAM");
    assert_eq!(transport_types_param(false, false, false, true, false), "SBAHN");
    assert_eq!(transport_types_param(false, false, false, false, true), "RUFTAXI");
}

#[test]
fn no_transport_types_give_an_empty_fragment() {
    assert_eq!(transport_types_param(false, false, false, false, false), "");
}

#[test]
fn gaps_in_the_selection_still_join_cleanly() {
    assert_eq!(transport_types_param(true, false, true, false, false), "UBAHN,TRAM");
    assert_eq!(transport_types_param(false, true, false, true, true), "BUS,SBAHN,RUFTAXI");
}

fn station(global_id: &str) -> Location {
    Location::Station(StationResp {
        place: String::from("Munich"),
        name: String::from("Somewhere"),
        global_id: String::from(global_id),
        diva_id: 1,
        has_zoom_data: false,
        transport_types: vec![],
        aliases: String::new(),
        tariff_zones: String::new(),
    })
}

fn address() -> Location {
    Location::Address(AddressResp {
        place: String::from("Munich"),
        name: String::from("A street"),
        post_code: String::from("80331"),
        street: String::from("A street"),
        house_number: String::from("1"),
    })
}

fn poi() -> Location {
    Location::Poi(PoiResponse { place: String::from("Munich"), name: String::from("A sight") })
}

#[test]
fn resolution_picks_the_first_station_candidate() {
    let locs = vec![address(), poi(), station("de:09162:6"), station("de:09162:7")];
    assert_eq!(first_station_id(&locs), Some(String::from("de:09162:6")));
}

#[test]
fn resolution_fails_without_a_station_candidate() {
    assert_eq!(first_station_id(&vec![]), None);
    assert_eq!(first_station_id(&vec![address(), poi()]), None);
}
