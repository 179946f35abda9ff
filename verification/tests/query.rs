use azubitafel::query::{DepartureConfig, Query};

#[test]
fn default_query_asks_for_fifty_departures_of_no_stop() {
    let query = Query::default();
    assert_eq!(query.output_format, "JSON");
    assert_eq!(query.mode, "direct");
    assert_eq!(query.include_proximate, 1);
    assert_eq!(query.stop_id, "");
    assert_eq!(query.limit, 50);
    assert_eq!(query.depart_or_arrive, "dep");
    assert_eq!(query.type_dm, "any");
}

#[test]
fn query_builders_change_one_parameter_each() {
    let query = Query::default().with_stop("de:08111:6115").with_limit(5);
    assert_eq!(query.stop_id, "de:08111:6115");
    assert_eq!(query.limit, 5);
    assert_eq!(query.output_format, "JSON");
    assert_eq!(query.mode, "direct");
    assert_eq!(query.include_proximate, 1);
    assert_eq!(query.depart_or_arrive, "dep");
    assert_eq!(query.type_dm, "any");
    let again = query.with_stop("other");
    assert_eq!(again.stop_id, "other");
    assert_eq!(again.limit, 5);
}

#[test]
fn query_for_configured_stops_writes_their_ids_in_a_row() {
    let stops = vec![
        DepartureConfig { point: "de:1".to_string() },
        DepartureConfig { point: "".to_string() },
        DepartureConfig { point: "de:2".to_string() },
    ];
    let query = Query::from(&stops);
    assert_eq!(query.stop_id, "de:1de:2");
    assert_eq!(query.include_proximate, 0);
    assert_eq!(query.limit, 50);
    assert_eq!(query.output_format, "JSON");
    assert_eq!(query.mode, "direct");
    assert_eq!(query.depart_or_arrive, "dep");
    assert_eq!(query.type_dm, "any");
    assert_eq!(Query::from(&Vec::new()).stop_id, "");
}
