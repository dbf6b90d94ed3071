# stock_vision

The verified core of Stock Vision, a desktop tool for analysing A-share and
US stocks: the domain model, request URLs and the mapping of data-source
answers, the fallback over data sources, financial-health scoring, chart
windowing and the grouping of daily bars into weekly, monthly and yearly
bars, and the application's state machine. The functions in `src/` are
verified with Verus against their `requires` / `ensures` contracts, except
four small trusted wrappers around `chrono` and `std` (`iso_week`,
`epoch_day`, `is_alphabetic`, `push_char`), whose contracts state what those
libraries document and are believed without proof.

- `src/` — the library, written in Verus.
- `tests/` — tests of the library on concrete values.
- `app/` — the iced desktop application around the library: windows and
  drawing, network requests, SQLite storage and the floating-point price
  arithmetic.
