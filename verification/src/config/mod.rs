/// Index management strategy configuration (`[index]` section).
pub mod index;
