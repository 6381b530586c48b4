//! Kōji's geometry and query-planning core: turning coordinate lists into
//! GeoJSON-shaped features, and the decisions that the server's database and
//! route layers make around them.

pub mod geometry;
pub mod feature;
pub mod multi_struct;
pub mod decimal;
pub mod spawnpoint;
pub mod area;
pub mod property;
pub mod raw_data;
pub mod clusters;
