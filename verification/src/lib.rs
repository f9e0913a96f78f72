//! A cancellable cursor-polling engine and the rules of the desktop commands
//! around it.
//!
//! The engine samples the pointer at a fixed cadence, drops samples that
//! moved too little, throttles the rest, and never loses the last pending
//! position when it is cancelled:
//!
//! * [`filter`] holds the pure policy that judges one sample;
//! * [`worker`] holds the worker as a state machine, driven by whoever reads
//!   the cursor, delivers the events and sleeps;
//! * [`history`] states what holds of a whole session;
//! * [`controller`] holds the lifecycle of the one worker.
//!
//! The other modules hold what the commands compute: the virtual desktop and
//! capture areas ([`screens`]), the outcome of capturing ([`capture`]), names
//! of cached downloads ([`cache`]), images as pixels and as text ([`pixels`],
//! [`encode`]), capture regions given as text ([`region`]), word
//! segmentation ([`segment`]) and the greeting ([`greeting`]).

pub mod cache;
pub mod capture;
pub mod config;
pub mod controller;
pub mod coord;
pub mod encode;
pub mod filter;
pub mod greeting;
pub mod history;
pub mod pixels;
pub mod region;
pub mod screens;
pub mod segment;
pub mod worker;

pub use config::PollConfig;
pub use controller::{control_mouse_poller, ControlStatus, PollerController};
pub use coord::MousePos;
pub use segment::{batch_segment_text, segment_text};
