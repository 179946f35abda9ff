use azubitafel::query::DepartureConfig;
use azubitafel::stopfinder::{confirmed, drops_configured, picked, record_stop, SearchParams};

#[test]
fn default_search_asks_for_fifty_hits_for_no_name() {
    let search = SearchParams::default();
    assert_eq!(search.output_format, "JSON");
    assert_eq!(search.type_sf, "any");
    assert_eq!(search.matches, 50);
    assert_eq!(search.search, "");
}

#[test]
fn search_builders_change_one_parameter_each() {
    let search = SearchParams::default().search("Hauptbahnhof").matches(7);
    assert_eq!(search.search, "Hauptbahnhof");
    assert_eq!(search.matches, 7);
    assert_eq!(search.output_format, "JSON");
    assert_eq!(search.type_sf, "any");
    let again = search.search("Rathaus");
    assert_eq!(again.search, "Rathaus");
    assert_eq!(again.matches, 7);
}

#[test]
fn only_a_yes_confirms() {
    assert!(confirmed("y"));
    assert!(confirmed("J"));
    assert!(confirmed("YES"));
    assert!(!confirmed("n"));
    assert!(!confirmed("no"));
    assert!(!confirmed(""));
    assert!(!confirmed("ok"));
}

#[test]
fn hits_are_picked_by_their_number_from_one() {
    assert_eq!(picked(3, 1), Some(0));
    assert_eq!(picked(3, 3), Some(2));
    assert_eq!(picked(3, 0), None);
    assert_eq!(picked(3, 4), None);
    assert_eq!(picked(0, 1), None);
    assert_eq!(picked(0, 0), None);
    assert_eq!(picked(usize::MAX, usize::MAX), Some(usize::MAX - 1));
}

#[test]
fn configured_stops_are_dropped_only_on_a_yes_and_only_if_there_are_any() {
    assert!(drops_configured(2, "y"));
    assert!(!drops_configured(2, "n"));
    assert!(!drops_configured(2, "what"));
    assert!(!drops_configured(0, "y"));
}

#[test]
fn new_stop_is_recorded_last() {
    let mut stops = vec![DepartureConfig { point: "a".to_string() }, DepartureConfig { point: "b".to_string() }];
    record_stop(&mut stops, "c".to_string(), false);
    let points: Vec<&str> = stops.iter().map(|stop| stop.point.as_str()).collect();
    assert_eq!(points, vec!["a", "b", "c"]);
    record_stop(&mut stops, "d".to_string(), true);
    let points: Vec<&str> = stops.iter().map(|stop| stop.point.as_str()).collect();
    assert_eq!(points, vec!["d"]);
    let mut none: Vec<DepartureConfig> = Vec::new();
    record_stop(&mut none, "e".to_string(), true);
    assert_eq!(none.len(), 1);
    assert_eq!(none[0].point, "e");
}
