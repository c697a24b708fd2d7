# ve_exporter

A Prometheus-style exporter for Victron VE.Direct chargers that are read
through a serial-to-HTTP bridge.

- `src/` is the verified library: decimal and hexadecimal number formats
  (`text`), the members of a JSON reply (`json`), the product-id table
  (`pid`), the record of a reading and the scraper's cache (`cache`), the
  settings and how the command line and the configuration file override them
  (`config`), the shell choice for completions (`completion`), and the
  VE.Direct HEX messages (`ve`).
- `app/` is the program around it: command-line parsing, the HTTP server,
  the scraper thread that fetches the bridge's reply, and the templates.
- `tests/` run the library on concrete values.
