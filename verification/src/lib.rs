//! Core of a Wayland compositor: the geometry model (outputs, seats, a stack
//! of toplevel and popup surfaces), the request → event pipeline that keeps
//! it up to date, and the pointer grabs that drive interactive move and
//! resize. Every function carries a contract that Verus proves.

pub mod geometry;
pub mod search;
pub mod surface_state;
pub mod surface;
pub mod surface_tree;
pub mod surface_manager;
pub mod output_manager;
pub mod seat_manager;
pub mod geometry_manager;
pub mod resize_logic;
pub mod move_logic;
pub mod utils;
pub mod platform_events;
pub mod wayland_requests;
pub mod wcomp_events;
pub mod wcomp;
pub mod laws;
