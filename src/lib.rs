//! Coordination core of a tray-anchored popup window: a cache of the last
//! observed tray-icon geometry, the placement of the window under it, the
//! show/hide toggle, and the routing of tray, menu and hotkey events to it.
//! Every function returns the commands to carry out; running them against
//! the platform is left to the caller.
pub mod geometry;
pub mod placement;
pub mod router;
pub mod toggle;
