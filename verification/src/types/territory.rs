pub use crate::tis::{CountryCode, RegionCode, TerritoryCode};
