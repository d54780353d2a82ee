pub mod cacher;
pub mod counter;
pub mod shoes;
pub mod workout;
