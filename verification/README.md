# vulnfeed

The verified core of a vulnerability-feed synchroniser.

- `src/` is the library; its functions carry proved contracts:
  - `text` — trimming by the Unicode `White_Space` property, decimal numerals,
    and the text operations taken from std and chrono;
  - `sync_data_task` — the stored synchronisation task and its validated name
    (trimmed, 4 to 20 characters) and interval (1 to 720 minutes);
  - `vuln_information` — the vulnerability record and its severity;
  - `vuln_plugin` — the plugin trait and the registry of plugins by name,
    held in a `DashMap`;
  - `wiz` — the Wiz feed: its records, the search request, page counting,
    the mapping of a hit to a vulnerability record, and the steps of an update;
  - `scheduler` — the cron schedule of a task, and the steps that reschedule
    the stored task or start the scheduler from it.
- `app/` performs the I/O that those steps ask for: Postgres through sqlx,
  HTTP through reqwest, the cron scheduler, the record channel, and the
  serialised forms of the records.
- `tests/` exercises the library on concrete values.
