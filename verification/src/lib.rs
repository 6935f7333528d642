//! Page-cache inspection and manipulation engine.
//!
//! The library holds the verified logic of two small operator tools: querying
//! which pages of a file or block-device region are resident in the kernel's
//! page cache, and requesting residency changes (touch, evict, lock).  All
//! page arithmetic, range resolution, residency-bitmap interpretation,
//! result aggregation, hard-link deduplication and ignore-pattern filtering
//! live here with contracts; the raw system calls that feed them (open,
//! mmap, mincore, mlock, munmap) are performed by the surrounding binary,
//! which hands this library plain values and takes plain values back.

pub mod aggregate;
pub mod error;
pub mod fincore;
pub mod fnmatch;
pub mod helper;
pub mod residency;
pub mod search;
pub mod toucher;
