//! A small software-synthesizer plugin core: a lock-free shared parameter
//! store, a note-gate counter driven by note-on/note-off events, a noise
//! block generator, and a cooperative, step-at-a-time GUI driver with its
//! editor lifecycle controller.
pub mod editor;
pub mod gate;
pub mod gui;
pub mod params;
pub mod shell;
pub mod synth;
