use vsp_router::config::Route;
use vsp_router::error::Error;
use vsp_router::routing::RoutingTable;

fn s(x: &str) -> String {
    x.to_string()
}

fn route(src: &str, dst: &str) -> Route {
    Route { src: s(src), dst: s(dst) }
}

#[test]
fn duplicate_identifier_is_rejected() {
    let r = RoutingTable::build(vec![s("a"), s("b"), s("a")], Vec::new());
    match r {
        Err(Error::DuplicateIdentifier { identifier }) => assert_eq!(identifier, "a"),
        _ => panic!("expected a duplicate-identifier error"),
    }
}

#[test]
fn unknown_destination_is_rejected() {
    let r = RoutingTable::build(vec![s("a")], vec![route("a", "b")]);
    match r {
        Err(Error::UnknownEndpoint { identifier, edge }) => {
            assert_eq!(identifier, "b");
            assert_eq!(edge.src, "a");
            assert_eq!(edge.dst, "b");
        }
        _ => panic!("expected an unknown-endpoint error"),
    }
}

#[test]
fn unknown_source_is_rejected() {
    let r = RoutingTable::build(vec![s("a")], vec![route("c", "a")]);
    match r {
        Err(Error::UnknownEndpoint { identifier, edge }) => {
            assert_eq!(identifier, "c");
            assert_eq!(edge.src, "c");
            assert_eq!(edge.dst, "a");
        }
        _ => panic!("expected an unknown-endpoint error"),
    }
}

#[test]
fn duplicates_are_checked_before_edges() {
    let r = RoutingTable::build(vec![s("a"), s("a")], vec![route("a", "nowhere")]);
    match r {
        Err(Error::DuplicateIdentifier { identifier }) => assert_eq!(identifier, "a"),
        _ => panic!("expected the duplicate to be found first"),
    }
}

#[test]
fn destinations_keep_declaration_order() {
    let ids = vec![s("a"), s("b"), s("c")];
    let edges = vec![route("a", "c"), route("a", "b"), route("b", "c")];
    let Ok(table) = RoutingTable::build(ids, edges) else {
        panic!("expected a valid table");
    };
    assert_eq!(table.destinations_of(&s("a")), vec![s("c"), s("b")]);
    assert_eq!(table.destinations_of(&s("b")), vec![s("c")]);
}

#[test]
fn endpoint_without_edges_has_no_destinations() {
    let Ok(table) = RoutingTable::build(vec![s("a"), s("b")], vec![route("a", "b")]) else {
        panic!("expected a valid table");
    };
    assert_eq!(table.destinations_of(&s("b")), Vec::<String>::new());
    assert!(table.is_declared(&s("b")));
    assert!(!table.is_declared(&s("z")));
}
