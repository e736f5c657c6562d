//! A verified model of a concurrency bridge between a hardware control
//! surface (buttons and rotary wheels) and an application shell's event bus.
//!
//! The library holds the bridge's decision logic: the lifecycle state
//! machine that registers event callbacks before attempting to open the
//! device, the mapping from raw driver reports to structured event
//! payloads, and the diagnostic messages produced for open and command
//! outcomes. The surrounding process plumbing (the driver instance, the
//! lock around it, the asynchronous task and the event-bus emission)
//! lives outside the library and hands it plain values.

pub mod bridge;
pub mod events;
