//! Pool sizes and connection plans for SQL data access objects.
use vstd::prelude::*;

verus! {

/// How many concurrent connections each of the three connection roles may open.
pub struct PoolSizeConfig {
    pub write_pool_size: usize,
    pub read_pool_size: usize,
    pub read_master_pool_size: usize,
}

impl PoolSizeConfig {
    /// Pool sizes for an unsharded database: a single writer, the router's default
    /// number of concurrent readers, and ten readers of the master, so that the
    /// master is not overloaded.
    pub fn for_regular_connection(default_read_pool_size: usize) -> (config: Self)
        ensures
            config.write_pool_size == 1,
            config.read_pool_size == default_read_pool_size,
            config.read_master_pool_size == 10,
    {
        PoolSizeConfig {
            write_pool_size: 1,
            read_pool_size: default_read_pool_size,
            read_master_pool_size: 10,
        }
    }

    /// Pool sizes for a sharded database: one connection of each role.
    pub fn for_sharded_connection() -> (config: Self)
        ensures
            config.write_pool_size == 1,
            config.read_pool_size == 1,
            config.read_master_pool_size == 1,
    {
        PoolSizeConfig { write_pool_size: 1, read_pool_size: 1, read_master_pool_size: 1 }
    }
}

/// Whether a connection may only read or may also write.
#[derive(Clone, Copy, Debug, PartialEq, Eq, Structural)]
pub enum ConnectionAccess {
    ReadOnly,
    ReadWrite,
}

/// The settings that one connection through the MyRouter proxy is built with.
pub struct MyRouterConnectionSpec {
    pub tier: String,
    pub port: u16,
    pub label: String,
    /// The router prefers a replica over the master when both qualify.
    pub tie_break_slave_first: bool,
    /// The connection is restricted to the master (service type MASTER).
    pub master_service: bool,
    pub max_num_of_concurrent_connections: usize,
    pub access: ConnectionAccess,
}

/// The settings of the write, read and read-master connections of one data access object.
pub struct MyRouterConnectionSpecs {
    pub write: MyRouterConnectionSpec,
    pub read: MyRouterConnectionSpec,
    pub read_master: MyRouterConnectionSpec,
}

/// What `spec` must hold for a connection to `tier` on `port` labelled `label`.
pub open spec fn myrouter_spec_is(
    spec: MyRouterConnectionSpec,
    tier: Seq<char>,
    port: u16,
    label: Seq<char>,
    master_service: bool,
    max: usize,
    access: ConnectionAccess,
) -> bool {
    &&& spec.tier@ == tier
    &&& spec.port == port
    &&& spec.label@ == label
    &&& spec.tie_break_slave_first
    &&& spec.master_service == master_service
    &&& spec.max_num_of_concurrent_connections == max
    &&& spec.access == access
}

/// A connection that meets `myrouter_spec_is` has exactly the given tier, port,
/// label, service restriction, pool size and access, and breaks ties towards
/// replicas, whatever the pool size and the access are.
pub proof fn lemma_myrouter_spec_fields(
    spec: MyRouterConnectionSpec,
    tier: Seq<char>,
    port: u16,
    label: Seq<char>,
    master_service: bool,
    max: usize,
    access: ConnectionAccess,
)
    requires
        myrouter_spec_is(spec, tier, port, label, master_service, max, access),
    ensures
        spec.tier@ == tier,
        spec.port == port,
        spec.label@ == label,
        spec.tie_break_slave_first,
        spec.master_service == master_service,
        spec.max_num_of_concurrent_connections == max,
        spec.access == access,
{
}

/// Whatever the pool sizes, reads of the master and writes go to the master and
/// plain reads do not, and every connection keeps the tier, port and label.
pub proof fn lemma_myrouter_roles_independent_of_pool_sizes(
    specs: MyRouterConnectionSpecs,
    tier: Seq<char>,
    port: u16,
    label: Seq<char>,
    config: PoolSizeConfig,
)
    requires
        myrouter_spec_is(
            specs.read,
            tier,
            port,
            label,
            false,
            config.read_pool_size,
            ConnectionAccess::ReadOnly,
        ),
        myrouter_spec_is(
            specs.read_master,
            tier,
            port,
            label,
            true,
            config.read_master_pool_size,
            ConnectionAccess::ReadOnly,
        ),
        myrouter_spec_is(
            specs.write,
            tier,
            port,
            label,
            true,
            config.write_pool_size,
            ConnectionAccess::ReadWrite,
        ),
    ensures
        !specs.read.master_service,
        specs.read_master.master_service,
        specs.write.master_service,
        specs.read.label@ == label && specs.read_master.label@ == label && specs.write.label@
            == label,
        specs.read.tier@ == tier && specs.read_master.tier@ == tier && specs.write.tier@ == tier,
        specs.read.port == port && specs.read_master.port == port && specs.write.port == port,
{
}

fn myrouter_spec(
    tier: &str,
    port: u16,
    label: &str,
    master_service: bool,
    max: usize,
    access: ConnectionAccess,
) -> (spec: MyRouterConnectionSpec)
    ensures
        myrouter_spec_is(spec, tier@, port, label@, master_service, max, access),
{
    MyRouterConnectionSpec {
        tier: tier.to_owned(),
        port,
        label: label.to_owned(),
        tie_break_slave_first: true,
        master_service,
        max_num_of_concurrent_connections: max,
        access,
    }
}

/// Plans the three MyRouter connections of a data access object.
///
/// All three go to `tier` on `port`, carry `label` and break ties towards replicas.
/// The read connection is read-only on the default service type and may open
/// `read_pool_size` connections; the read-master connection is read-only on the
/// master with `read_master_pool_size`; the write connection is read-write on the
/// master with `write_pool_size`.
pub fn myrouter_connection_specs(
    tier: &str,
    port: u16,
    pool_size_config: PoolSizeConfig,
    label: &str,
) -> (specs: MyRouterConnectionSpecs)
    ensures
        myrouter_spec_is(
            specs.read,
            tier@,
            port,
            label@,
            false,
            pool_size_config.read_pool_size,
            ConnectionAccess::ReadOnly,
        ),
        myrouter_spec_is(
            specs.read_master,
            tier@,
            port,
            label@,
            true,
            pool_size_config.read_master_pool_size,
            ConnectionAccess::ReadOnly,
        ),
        myrouter_spec_is(
            specs.write,
            tier@,
            port,
            label@,
            true,
            pool_size_config.write_pool_size,
            ConnectionAccess::ReadWrite,
        ),
        specs.read.tier@ == tier@ && specs.read_master.tier@ == tier@ && specs.write.tier@ == tier@,
        specs.read.port == port && specs.read_master.port == port && specs.write.port == port,
        specs.read.label@ == label@ && specs.read_master.label@ == label@ && specs.write.label@
            == label@,
        specs.read.tie_break_slave_first && specs.read_master.tie_break_slave_first
            && specs.write.tie_break_slave_first,
        !specs.read.master_service && specs.read_master.master_service
            && specs.write.master_service,
        specs.read.access == ConnectionAccess::ReadOnly && specs.read_master.access
            == ConnectionAccess::ReadOnly && specs.write.access == ConnectionAccess::ReadWrite,
        specs.read.max_num_of_concurrent_connections == pool_size_config.read_pool_size,
        specs.read_master.max_num_of_concurrent_connections
            == pool_size_config.read_master_pool_size,
        specs.write.max_num_of_concurrent_connections == pool_size_config.write_pool_size,
{
    let read = myrouter_spec(
        tier,
        port,
        label,
        false,
        pool_size_config.read_pool_size,
        ConnectionAccess::ReadOnly,
    );
    let read_master = myrouter_spec(
        tier,
        port,
        label,
        true,
        pool_size_config.read_master_pool_size,
        ConnectionAccess::ReadOnly,
    );
    let write = myrouter_spec(
        tier,
        port,
        label,
        true,
        pool_size_config.write_pool_size,
        ConnectionAccess::ReadWrite,
    );
    MyRouterConnectionSpecs { write, read, read_master }
}

/// Plans the MyRouter connections of a data access object on an unsharded
/// database: the connections of `myrouter_connection_specs` with the regular pool
/// sizes (`default_read_pool_size` being the router's default number of concurrent
/// connections) and the object's label.
pub fn regular_myrouter_connection_specs(
    tier: &str,
    port: u16,
    default_read_pool_size: usize,
    label: &str,
) -> (specs: MyRouterConnectionSpecs)
    ensures
        myrouter_spec_is(
            specs.read,
            tier@,
            port,
            label@,
            false,
            default_read_pool_size,
            ConnectionAccess::ReadOnly,
        ),
        myrouter_spec_is(specs.read_master, tier@, port, label@, true, 10, ConnectionAccess::ReadOnly),
        myrouter_spec_is(specs.write, tier@, port, label@, true, 1, ConnectionAccess::ReadWrite),
        specs.read.tier@ == tier@ && specs.read_master.tier@ == tier@ && specs.write.tier@ == tier@,
        specs.read.port == port && specs.read_master.port == port && specs.write.port == port,
        specs.read.label@ == label@ && specs.read_master.label@ == label@ && specs.write.label@
            == label@,
        specs.read.tie_break_slave_first && specs.read_master.tie_break_slave_first
            && specs.write.tie_break_slave_first,
        !specs.read.master_service && specs.read_master.master_service
            && specs.write.master_service,
        specs.read.access == ConnectionAccess::ReadOnly && specs.read_master.access
            == ConnectionAccess::ReadOnly && specs.write.access == ConnectionAccess::ReadWrite,
        specs.read.max_num_of_concurrent_connections == default_read_pool_size,
        specs.read_master.max_num_of_concurrent_connections == 10,
        specs.write.max_num_of_concurrent_connections == 1,
{
    myrouter_connection_specs(
        tier,
        port,
        PoolSizeConfig::for_regular_connection(default_read_pool_size),
        label,
    )
}

/// Which instance of a tier a raw connection is opened against.
#[derive(Clone, Copy, Debug, PartialEq, Eq, Structural)]
pub enum InstanceRequirement {
    Master,
    ReplicaFirst,
}

/// The instances that the write, read and read-master raw connections to a tier need.
pub struct RawXdbConnectionSpecs {
    pub tier: String,
    pub write: InstanceRequirement,
    pub read: InstanceRequirement,
    pub read_master: InstanceRequirement,
}

/// Plans the three raw connections to `tier`: writes and master reads go to the
/// master, plain reads prefer a replica.
pub fn raw_xdb_connection_specs(tier: &str) -> (specs: RawXdbConnectionSpecs)
    ensures
        specs.tier@ == tier@,
        specs.write == InstanceRequirement::Master,
        specs.read == InstanceRequirement::ReplicaFirst,
        specs.read_master == InstanceRequirement::Master,
{
    RawXdbConnectionSpecs {
        tier: tier.to_owned(),
        write: InstanceRequirement::Master,
        read: InstanceRequirement::ReplicaFirst,
        read_master: InstanceRequirement::Master,
    }
}

/// The write, read and read-master connections of one data access object.
pub struct SqlConnections<C> {
    pub write_connection: C,
    pub read_connection: C,
    pub read_master_connection: C,
}

/// Puts one sqlite connection in all three roles: clones of it read and write, and
/// the connection itself serves reads of the master.
pub fn shared_connections<C: Clone>(con: C) -> (connections: SqlConnections<C>)
    ensures
        cloned(con, connections.write_connection),
        cloned(con, connections.read_connection),
        connections.read_master_connection == con,
{
    let write_connection = con.clone();
    let read_connection = con.clone();
    SqlConnections { write_connection, read_connection, read_master_connection: con }
}

/// The way a data access object reaches an XDB tier.
#[derive(Clone, Copy, Debug, PartialEq, Eq, Structural)]
pub enum XdbRoute {
    /// Through the MyRouter proxy listening on this port.
    MyRouter(u16),
    /// Directly to the tier, with raw connections.
    RawTier,
}

/// With a MyRouter port the tier is reached through MyRouter, without one directly.
pub fn xdb_route(port: Option<u16>) -> (route: XdbRoute)
    ensures
        route == (match port {
            Some(p) => XdbRoute::MyRouter(p),
            None => XdbRoute::RawTier,
        }),
{
    match port {
        Some(myrouter_port) => XdbRoute::MyRouter(myrouter_port),
        None => XdbRoute::RawTier,
    }
}

/// Where an sqlite database is opened.
#[derive(Clone, Copy, Debug, PartialEq, Eq, Structural)]
pub enum SqliteLocation {
    /// A fresh database in memory: its tables must be created.
    InMemory,
    /// A database file, which may already hold its tables.
    Path,
}

/// What becomes of running the table-creation query on a freshly opened sqlite
/// database: in memory its failure is the failure of the whole; on a file it is
/// ignored, since the tables may already be there.
pub fn up_query_outcome<E>(location: SqliteLocation, up_query: Result<(), E>) -> (outcome: Result<
    (),
    E,
>)
    ensures
        location == SqliteLocation::Path ==> outcome is Ok,
        location == SqliteLocation::InMemory ==> outcome == up_query,
{
    match location {
        SqliteLocation::InMemory => up_query,
        SqliteLocation::Path => Ok(()),
    }
}

/// What to do before a database can be used.
pub enum MyRouterReadiness {
    /// Nothing to wait for.
    Ready,
    /// Wait until MyRouter on `port` serves `db_address`.
    WaitFor { port: u16, db_address: String },
}

/// No database, or no MyRouter, means nothing to wait for; a database behind
/// MyRouter means waiting for MyRouter to serve it.
pub fn myrouter_readiness(db_addr_opt: Option<&str>, myrouter_port: Option<u16>) -> (r:
    MyRouterReadiness)
    ensures
        (db_addr_opt is None || myrouter_port is None) <==> r is Ready,
        r matches MyRouterReadiness::WaitFor { port, db_address } ==> (myrouter_port == Some(port)
            && (db_addr_opt matches Some(a) && db_address@ == a@)),
{
    match db_addr_opt {
        None => MyRouterReadiness::Ready,
        Some(db_address) => {
            if let Some(port) = myrouter_port {
                MyRouterReadiness::WaitFor { port, db_address: db_address.to_owned() }
            } else {
                MyRouterReadiness::Ready
            }
        },
    }
}

} // verus!
