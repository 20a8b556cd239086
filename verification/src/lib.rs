//! Decisions and file layouts of the Chromebook audio overlay tools: the names of the
//! systemd-sysext overlays, the operations that build and install them, the table of board
//! generations, what the service mounts on a given board, and the answers of the read-only
//! file system that presents the OS release file inside each overlay.

pub mod text;
pub mod names;
pub mod service;
pub mod board_generations;
pub mod virtual_file;
pub mod install;
pub mod overlays;

pub use board_generations::{get_board_generations, BoardGenerations};
pub use names::{
    get_avs_extension_name, get_avs_max98357a_extension_name, get_common_ucm_extension_name,
    get_mt8138_extension_name, EXTENSION_PREFIX, SOF_BOARD_GENERATIONS,
};
pub use virtual_file::VirtualFile;
