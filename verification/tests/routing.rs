use zel_core::{NameMap, ResourceError, ResourceKind, ServiceBuilder, ServiceTable};

#[test]
fn routes_registered_resources() {
    let mut table = ServiceTable::new();
    ServiceBuilder::new("math".to_owned())
        .resource("add".to_owned(), ResourceKind::Rpc)
        .resource("ticks".to_owned(), ResourceKind::Subscription)
        .build(&mut table);
    assert_eq!(table.route("math", "add").ok(), Some(&ResourceKind::Rpc));
    assert_eq!(table.route("math", "ticks").ok(), Some(&ResourceKind::Subscription));
}

#[test]
fn unknown_service_and_resource() {
    let mut table: ServiceTable<u32> = ServiceTable::new();
    let mut resources = NameMap::new();
    resources.insert("a".to_owned(), 1);
    table.add_service("svc".to_owned(), resources);
    match table.route("other", "a") {
        Err(ResourceError::ServiceNotFound { service }) => assert_eq!(service, "other"),
        other => panic!("unexpected {other:?}"),
    }
    match table.route("svc", "b") {
        Err(ResourceError::ResourceNotFound { service, resource }) => {
            assert_eq!(service, "svc");
            assert_eq!(resource, "b");
        }
        other => panic!("unexpected {other:?}"),
    }
    assert_eq!(
        table.route("svc", "b").unwrap_err().text(),
        "Resource 'b' not found in service 'svc'"
    );
}

#[test]
fn later_registration_replaces() {
    let mut map = NameMap::new();
    map.insert("x".to_owned(), 1);
    map.insert("x".to_owned(), 2);
    map.insert("y".to_owned(), 3);
    assert_eq!(map.len(), 2);
    assert_eq!(map.get(&"x".to_owned()), Some(&2));
}
