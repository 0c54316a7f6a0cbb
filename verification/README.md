# hypochlorite

Scrapes job postings from AMD's and Huawei's careers sites into CSV files.

- `src/` is the verified library (Verus). It holds the job record, the
  once-only start-up guard, the pause lengths, and, for each careers site, a
  state machine (`scrape::amd`, `scrape::huawei`) that decides, from what came
  of the last browser action, what the browser must do next: navigate, pause,
  find and click buttons, read the job cards, write records.
- `app/` is the program around it: it runs chromedriver, performs each
  requested action with `thirtyfour`, sleeps, and writes the CSV files with
  `csv` and `serde`.
- `tests/` drive the state machines through whole scrapes on made-up outcomes.
