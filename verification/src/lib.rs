//! Temporal date/time values for PostgreSQL: the storage model, the rules the
//! SQL functions follow, and their conversions, verified with Verus.
//!
//! Computation of calendar and time-zone rules is delegated to `temporal_rs`
//! through the trusted items of each module.

pub mod duration;
pub mod error;
pub mod gucs;
pub mod instant;
pub mod text;
pub mod order;
pub mod sorting;
pub mod plain_time;
pub mod wire;
pub mod calendar;
pub mod iso_date;
pub mod plain_date;
pub mod plain_datetime;
pub mod plain_year_month;
pub mod plain_month_day;
pub mod zoned_datetime;
pub mod duration_storage;
pub mod duration_relative;
pub mod duration_order;
pub mod usage;
