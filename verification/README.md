# BlackBox

BlackBox is the hub of a small IoT network. Nodes announce themselves over
MQTT; the external interface (a web front end) asks the hub to register
them, rename them, restart or unregister them; the hub keeps the nodes, their
elements and the broker's accounts in a Postgres database.

## Layout

- `src/` is the verified library (Verus).
  - `plan.rs`: database work as data. A `DbPlan` is a list of SQL statements,
    each saying which outcomes let the plan go on; `next_step` decides, from
    the outcomes so far, what to run next and whether the plan succeeded.
  - `db_manager/`: the plans for every table operation, database
    initialisation as a state machine (`lifecycle.rs`), the node list
    (`listing.rs`), and a model of the keys each table holds (`model.rs`).
  - `nodes/`, `external_interface/`, `neutron_communicator.rs`,
    `messages.rs`: the commands and messages of the three MQTT protocols.
  - `hub.rs`: what the hub does with each message it receives.
  - `credentials.rs`: random passwords and user names, Mosquitto password
    hashes.
  - `settings.rs`, `mqtt_broker_manager.rs`: settings loading and the broker's
    configuration text.
- `app/` is the program around it: command line, files, the Postgres
  connection, the MQTT client, and the JSON forms of the library's values.
- `tests/` holds the tests of the library.
