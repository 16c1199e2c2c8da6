//! Register-level model of the YM2203 (OPN) sound chip.

pub mod bits;
pub mod operator;
pub mod channel;
pub mod fm;
pub mod ssg;
pub mod chip;

pub use chip::Ym2203;
