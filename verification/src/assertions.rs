pub mod bound;
pub mod membership;
pub mod ordered;
pub mod size;

