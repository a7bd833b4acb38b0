//! A registry of metadata for named value statistics: for each statistic
//! name, its unit of measurement, the unit's short display suffix and the
//! kind of statistic it is.
pub mod known_statistics;
pub mod registry_laws;
pub mod text;
pub mod units;
pub mod value_statistic_details;

pub use value_statistic_details::{ValueStatisticDetails, ValueStatistics};
