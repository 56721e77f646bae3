# finance_manager

The decision logic of a personal finance manager, written in Verus and
verified: every public function states what it returns and how it changes
its arguments, and Verus proves it.

## Layout

- `src/` — the verified library.
  - Text and numbers: `text`, `number` (what counts as a number, decimal
    comma and `_` included), `date_time` (reading and writing `dd.mm.yyyy`
    and `hh:mm`, calendar shifts, with the calendar arithmetic of the `time`
    crate behind small trusted wrappers).
  - Inputs: `validation_text_input`, `currency_input`, `inputs::*` (date,
    time, date-and-time and date-span inputs), `key_value_editor`.
  - Pages, as state machines from message to new state and action:
    `create_transaction`, `create_bill` with its transaction picker
    `add_transaction`, `create_budget` (with the recurrence input of
    `budget`), `create_asset_account`, `create_book_checking_account`,
    `create_category`, `overview`, `transaction_view`, `item_pages`
    (the budget, category and bill pages and the page of filtered
    transactions), `settings`,
    `sidebar`, `importer` (file page and the question-by-question import
    step), `filter`, `table`.
  - Between pages: `page_dispatch` (a message reaches the page of its kind,
    which does what its own `update` does, or is dropped), `panes` (the
    panes of the window and their focus), `navigation` (which page opens when a page is done),
    `pages` (the title of each kind of page), `finance_managers` (which
    finance manager the given flags select).
  - The server's protection of its token against guessing: `auth`.
  - Smaller pieces: `ordered` (stable sort of a table with its
    comparator), `named` (stable ordering by name), `forms`, `client`,
    `config`, `error`, `heading`, `scrollable`.
- `tests/` — tests of the library on concrete values.
- `app/` — the program around it: configuration files, the clock, the local
  time zone and floating-point numbers.

Each page returns an action that names the outside work to do (fetch,
store, ask the user for a file); the program performs it and hands the
result back as a message.
