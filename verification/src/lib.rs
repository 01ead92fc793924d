//! Verified core of the grindd container engine: build-file parsing and layer
//! caching, the container registry, cgroup, overlay, network and rootfs plans,
//! and the step-by-step decisions of running a container.

pub mod text;
pub mod paths;
pub mod error;
pub mod buildsys;
pub mod keyed;
pub mod digest;
pub mod command;
pub mod cgroups;
pub mod config;
pub mod daemon;
pub mod inspect;
pub mod storage;
pub mod network;
pub mod rootfs;
pub mod runtime;
pub mod host;
pub mod image;
pub mod engine;
