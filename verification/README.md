# modality-trace-recorder-plugin

Modality reflector plugins for Percepio TraceRecorder data (streaming and snapshot): the processing
of a recording into Modality timelines, events and interactions, written in Verus with
its behaviour stated as contracts and proved.

- `src/` is the verified library. `context_manager` turns each trace event into an event
  on its task or ISR timeline, with the interactions between contexts, the dropped-event
  and time-rollover tracking and the CPU utilization windows; `snapshot` imports the events of a snapshot
  memory dump onto task and ISR timelines; `recorder_data` gives the
  attributes of events and timelines; `deviant` parses Deviant mutation events; `opts`,
  `config`, `auth` and `collector` hold the settings and their merging; `trc_reader`
  holds the decisions of the read loop; `command` the control-plane commands; `elf` the
  symbol lookups.
- `app/` is the program around it: command-line parsing, the configuration file, the
  trace parser, the network connections and the ingest client. `app/main.rs` runs the
  file importer (`import`, streaming or snapshot protocol) or the TCP collector
  (`tcp-collector`).
- `tests/` exercises the library on concrete values.
