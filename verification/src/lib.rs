//! Core logic of a desktop tool that predicts droplet-generation flow rates
//! and a driving frequency for a chosen microfluidic device, and lets the
//! user train a new regression model from a CSV file.
//!
//! The library holds everything that can be stated and proved: the scene
//! navigator, the two screens' state machines, the three-stage inference
//! pipeline's wiring, the device table, and the numeric-text rules. What it
//! cannot hold — the GUI toolkit, file dialogs, the training script, the
//! inference backend, and every floating-point operation — stays outside;
//! the library hands such work out as explicit commands and takes the
//! outcomes back as plain values, carrying each scalar as its 32-bit IEEE 754
//! pattern.

pub mod device;
pub mod messages;
pub mod numeric;
pub mod pipeline;
pub mod prediction;
pub mod scene;
pub mod training;
