pub mod clock;
pub mod common;
pub mod kopt;
pub mod metrizable;
pub mod point;
