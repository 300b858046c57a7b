# netbench_orchestrator

Runs netbench scenarios on EC2 hosts and coordinates them with Russula, a
small protocol in which one coordinator drives its workers through matching
state machines.

## Layout

- `src/` is the library, verified with Verus:
  - `russula/`: the state machines of the netbench server and client pairs,
    their wire form, the framing of messages, and the decisions each
    protocol instance makes (what to do in a state, what a received message
    means, when a target state is reached). `russula/netbench.rs` holds the
    proofs about the pairs: they move in lockstep, never get stuck before
    both sides are done, and every state survives the trip over the wire.
  - `ssm_utils/`: the commands sent to the hosts, how they wait for each
    other, and how a command's status is judged.
  - `ec2_utils/`, `cli.rs`, `state.rs`, `dashboard.rs`, `report.rs`,
    `coordination_utils.rs`: names, paths, addresses and settings of a run.
- `app/` is the program around it: argument parsing, the AWS calls, TCP
  connections and processes. The same binary runs as the Russula command
  line when started under a name ending in `russula_cli`.
- `tests/` exercises the library on concrete values.
