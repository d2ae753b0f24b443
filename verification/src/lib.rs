//! A small concurrency abstraction layer: a generic readers-writer lock
//! capability, a tag-checked owning handle that lets a generic owner store a
//! backend-chosen lock implementation, a sequencer that keeps request
//! bookkeeping behind the lock, and a dispatcher that exposes the sequencer
//! through a plain call surface.

pub mod controller;
pub mod hrtb;
pub mod implbox;
pub mod numfmt;
pub mod runtime;
pub mod rwlock;

pub mod device;
