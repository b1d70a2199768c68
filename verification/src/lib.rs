//! A single-endpoint request adapter exposing a query-execution engine over
//! HTTP: GET serves an interactive exploration page, POST carries a structured
//! query payload executed against a fixed in-process schema, and every other
//! input is rejected with a structured error envelope.

pub mod adapter;
pub mod errors;
pub mod playground;
pub mod render;
pub mod schemas;
