//! Verified logic of a disk erasure utility: reading the disk listings of
//! `lsblk` and `hdparm`, the answers typed at its prompts, the DoD 5220.22-M
//! overwrite of hard disks and the secure erase of SSDs as state machines
//! that ask for outside commands and take their outcomes, and the entries of
//! the erasure log.
pub mod answer;
pub mod case;
pub mod cmd;
pub mod dd;
pub mod disks;
pub mod erase;
pub mod hdd;
pub mod log;
pub mod number;
pub mod picker;
pub mod ssd;
pub mod text;
