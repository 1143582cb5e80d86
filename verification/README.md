# MyTime

A desktop time tracker backed by SQLite: manual time entries, real-time
start/end tracking, editing and deleting records, a day view, and week, month
and year statistics, in Chinese or English.

## Layout

- `src/` is the verified core, proved with Verus:
  - `calendar`: dates, times of day and instants, their order and arithmetic;
  - `text`: trimming, display widths and shortening with an ellipsis;
  - `formatting`: the date, time and duration texts;
  - `i18n`: the interface texts in both languages and the activity categories;
  - `clock`: the calls into `chrono` (parsing, the local clock, durations,
    adding minutes);
  - `model`: entries, forms, validation, parsing of the form fields, the
    ranges that the views read, and the rows written to storage;
  - `stats`: the totals per category and per day or month;
  - `app_state`: the state of the interface and what each action does to it;
  - `sample`: the plan of random test data;
  - `laws`: properties that relate several of these operations.
- `tests/` exercises the library on concrete values.
- `app/` is the program: the iced windows, the SQLite storage and the
  `generate-test-data` command. It performs the work that the library's state
  machine asks for and hands the outcomes back.

## Run

```bash
cargo run
cargo run -- generate-test-data --days 30
```

Use `--no-clear` to append test data instead of clearing existing records
first. The data lives in `time_tracker.db` in the working directory.
