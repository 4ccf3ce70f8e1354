//! Verified core of the quantum-secured pipeline server: request limits,
//! progress pacing, scenario seeds, sifted-key forensics, the verdict and
//! key-distillation decisions, and the text the server sends back.
pub mod decimal;
pub mod limits;
pub mod notices;
pub mod verdict;
pub mod distill;
pub mod divergence;
pub mod progress;
pub mod seeds;
pub mod clock;
pub mod ports;
