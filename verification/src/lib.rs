pub mod anomaly;
pub mod body;
pub mod scalar;
pub mod system;
