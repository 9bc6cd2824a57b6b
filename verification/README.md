# smart_exporter

Exports S.M.A.R.T. drive statistics, as reported by `smartctl --json`, in the
Prometheus / OpenMetrics text format over HTTP (`GET /metrics`).

The decisions of the exporter are a Verus-verified library under `src/`:

- `smartctl`: the commands that run smartctl (through `sudo`, or replaying
  replies saved to files), the checks on its exit status and on the JSON
  format version of its reply;
- `collector`: when devices are re-scanned, which `smart_device_up` series
  are published, and the encoding of the registered metrics;
- `server`: the index page and the content types of the endpoints;
- `text`: decimal rendering and joining of strings.

`app/` is the program around it: command line, logging, running processes,
checking files, reading JSON with serde, the clock, the collector worker task
and the HTTP server.
