pub mod check;
pub mod execute;
pub mod mask;
pub mod turnmask;
