use mononoke_util::sql_ext::{
    myrouter_connection_specs, myrouter_readiness, raw_xdb_connection_specs, shared_connections,
    up_query_outcome, xdb_route, ConnectionAccess, InstanceRequirement, MyRouterReadiness,
    PoolSizeConfig, SqliteLocation, XdbRoute,
};

#[test]
fn sharded_pool_sizes_are_one() {
    let c = PoolSizeConfig::for_sharded_connection();
    assert_eq!(c.write_pool_size, 1);
    assert_eq!(c.read_pool_size, 1);
    assert_eq!(c.read_master_pool_size, 1);
}

#[test]
fn regular_pool_sizes() {
    let c = PoolSizeConfig::for_regular_connection(100);
    assert_eq!(c.write_pool_size, 1);
    assert_eq!(c.read_pool_size, 100);
    assert_eq!(c.read_master_pool_size, 10);
}

#[test]
fn myrouter_specs_per_role() {
    let config = PoolSizeConfig {
        write_pool_size: 2,
        read_pool_size: 30,
        read_master_pool_size: 5,
    };
    let specs = myrouter_connection_specs("xdb.tier", 3307, config, "bookmarks");
    for spec in [&specs.write, &specs.read, &specs.read_master] {
        assert_eq!(spec.tier, "xdb.tier");
        assert_eq!(spec.port, 3307);
        assert_eq!(spec.label, "bookmarks");
        assert!(spec.tie_break_slave_first);
    }
    assert!(!specs.read.master_service);
    assert_eq!(specs.read.max_num_of_concurrent_connections, 30);
    assert_eq!(specs.read.access, ConnectionAccess::ReadOnly);
    assert!(specs.read_master.master_service);
    assert_eq!(specs.read_master.max_num_of_concurrent_connections, 5);
    assert_eq!(specs.read_master.access, ConnectionAccess::ReadOnly);
    assert!(specs.write.master_service);
    assert_eq!(specs.write.max_num_of_concurrent_connections, 2);
    assert_eq!(specs.write.access, ConnectionAccess::ReadWrite);
}

#[test]
fn myrouter_specs_with_sharded_sizes() {
    let specs = myrouter_connection_specs(
        "tier",
        1,
        PoolSizeConfig::for_sharded_connection(),
        "",
    );
    assert_eq!(specs.write.max_num_of_concurrent_connections, 1);
    assert_eq!(specs.read.max_num_of_concurrent_connections, 1);
    assert_eq!(specs.read_master.max_num_of_concurrent_connections, 1);
    assert_eq!(specs.read.label, "");
}

#[test]
fn raw_specs_per_role() {
    let specs = raw_xdb_connection_specs("xdb.mononoke");
    assert_eq!(specs.tier, "xdb.mononoke");
    assert_eq!(specs.write, InstanceRequirement::Master);
    assert_eq!(specs.read, InstanceRequirement::ReplicaFirst);
    assert_eq!(specs.read_master, InstanceRequirement::Master);
}

#[test]
fn one_connection_in_every_role() {
    let c = shared_connections(String::from("sqlite"));
    assert_eq!(c.write_connection, "sqlite");
    assert_eq!(c.read_connection, "sqlite");
    assert_eq!(c.read_master_connection, "sqlite");
}

#[test]
fn xdb_route_follows_port() {
    assert_eq!(xdb_route(Some(3306)), XdbRoute::MyRouter(3306));
    assert_eq!(xdb_route(None), XdbRoute::RawTier);
}

#[test]
fn up_query_failure_in_memory_is_fatal() {
    let r: Result<(), &str> = up_query_outcome(SqliteLocation::InMemory, Err("no table"));
    assert_eq!(r, Err("no table"));
    let r: Result<(), &str> = up_query_outcome(SqliteLocation::InMemory, Ok(()));
    assert_eq!(r, Ok(()));
}

#[test]
fn up_query_failure_on_file_is_ignored() {
    let r: Result<(), &str> = up_query_outcome(SqliteLocation::Path, Err("table exists"));
    assert_eq!(r, Ok(()));
    let r: Result<(), &str> = up_query_outcome(SqliteLocation::Path, Ok(()));
    assert_eq!(r, Ok(()));
}

#[test]
fn no_database_needs_no_wait() {
    assert!(matches!(myrouter_readiness(None, Some(1234)), MyRouterReadiness::Ready));
    assert!(matches!(myrouter_readiness(None, None), MyRouterReadiness::Ready));
}

#[test]
fn no_myrouter_needs_no_wait() {
    assert!(matches!(myrouter_readiness(Some("db"), None), MyRouterReadiness::Ready));
}

#[test]
fn database_behind_myrouter_is_waited_for() {
    match myrouter_readiness(Some("xdb.mononoke_production"), Some(4242)) {
        MyRouterReadiness::WaitFor { port, db_address } => {
            assert_eq!(port, 4242);
            assert_eq!(db_address, "xdb.mononoke_production");
        }
        MyRouterReadiness::Ready => panic!("expected a wait"),
    }
}

#[test]
fn regular_myrouter_specs() {
    let specs = mononoke_util::sql_ext::regular_myrouter_connection_specs("tier", 7, 100, "label");
    assert_eq!(specs.read.max_num_of_concurrent_connections, 100);
    assert_eq!(specs.read_master.max_num_of_concurrent_connections, 10);
    assert_eq!(specs.write.max_num_of_concurrent_connections, 1);
    assert!(!specs.read.master_service);
    assert!(specs.read_master.master_service && specs.write.master_service);
    assert_eq!(specs.write.access, ConnectionAccess::ReadWrite);
    assert_eq!(specs.read_master.label, "label");
    assert_eq!(specs.read.port, 7);
}
