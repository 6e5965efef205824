pub mod json;
pub mod text;
pub mod stock;
pub mod headers;
pub mod params;
pub mod agents;
pub mod lines;
pub mod exchange;
pub mod embedded;
