# bombini

An eBPF-based agent for observability and security monitoring. The library
under `src/` holds the agent's logic, verified with Verus; `app/` is the
agent program around it (command line, files, eBPF loading, serialization).

Modules of the library:

- `event`: raw event records shared with the kernel-side programs.
- `procmon`: the process monitor's probe logic as a state machine over its
  maps (exec, exit, credential commit, fork), with its laws.
- `bpf_map`: a bounded hash map with the semantics of a BPF hash map.
- `buf`, `text`: byte buffers and NUL-terminated strings.
- `gtfobins`: keys of the GTFOBins command-line map.
- `yaml`, `config`, `proto`, `detector`, `registry`, `path`: configuration
  files, detector configuration and the plan of which detectors to load.
- `transmuter`: raw events turned into high-level events with timestamps.
