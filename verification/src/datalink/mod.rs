pub mod datalink;
pub mod fixed_point;
pub mod laws;
pub mod messages;
pub mod model;
pub mod search;
pub mod u64_view;
