//! Worked examples: each function computes, with the library's own
//! functions, one SQL expression that the extension documents, and states
//! what it returns.
pub mod outcome;
pub mod settings;
pub mod durations;
pub mod instants;
pub mod plain_times;
pub mod plain_dates;
pub mod plain_date_times;
pub mod plain_month_days;
pub mod plain_year_months;
