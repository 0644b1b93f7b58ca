pub mod formatter;
pub mod aggregator;
pub mod model;
