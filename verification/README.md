# mononoke_util

Verified decision logic of three small Mononoke pieces, with the I/O kept apart.

- `src/sql_ext.rs`: pool sizes, the settings of the write, read and read-master
  connections (through MyRouter or raw to a tier), the choice between the two
  routes, the handling of table creation on sqlite, and when to wait for MyRouter.
- `src/tick_blobstore.rs`: the state of a test blobstore whose operations complete
  only when it is ticked, with laws on reads, writes and ticks; a log of puts.
- `src/changelog_logging.rs`: the scuba samples recording new segmented changelog
  versions.
- `app/`: builds the connections, opens sqlite databases, joins the raw
  connections, runs the channels and locks of the test blobstore, and sends the
  samples and the log line. The connection settings, routes, table-creation
  handling, waits, tick answers and the completion of reads and writes come from
  the verified functions.
