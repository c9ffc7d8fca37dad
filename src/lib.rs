//! A live video pipeline, from capture to display: raw frames are encoded
//! into chunks, handed over through a single-slot latest-wins mailbox, and
//! decoded behind a key-frame gate. The library holds the decisions of that
//! pipeline as state machines with exact contracts; its caller performs the
//! work they ask for (pulling frames, driving the codecs, painting).

pub mod action;
pub mod chunk;
pub mod codec;
pub mod encoder;
pub mod mailbox;
pub mod pipeline;
