pub mod ingest;
pub mod model;
pub mod schedule;
pub mod table;
pub mod timefmt;
