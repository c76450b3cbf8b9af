pub mod engine;
pub mod model;
pub mod sqlite;
pub mod laws;
pub mod schema;
pub mod honker;
pub mod clock;
pub mod wrapper;
pub mod sql_functions;
pub mod native;
