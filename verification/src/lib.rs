//! Core of a physical-presence dead-man's-switch daemon.
//!
//! A *tether* binds a monitoring relationship to one USB device instance,
//! identified by its bus number and address.  The daemon keeps a registry of
//! active tethers; a background watcher per tether observes hardware events
//! and, on confirmed physical removal with the lock-on-remove flag still set,
//! locks every active login session.  A text command protocol (`status`,
//! `tether BUS ADDRESS`, `severe`) controls the daemon over a local endpoint
//! whose callers are authenticated by their OS-level identity.
//!
//! This crate holds the verified core: the command protocol, the registry and
//! its operations, the watcher decision rules, the hardware lookup around
//! trusted enumeration wrappers, the session-list parsing, and the client
//! request builders.  Socket transport, thread plumbing and the hotplug event
//! loop live with the surrounding application.

pub mod text;
pub mod num;
pub mod device;
pub mod registry;
pub mod usb;
pub mod protocol;
pub mod client;
pub mod locker;
pub mod laws;

pub use client::{get_status, get_status_with_path, tether, tether_with_path, severe,
    severe_with_path, parse_response, default_socket_path, IpcRequest};
pub use device::{DeviceKey, DeviceInfo, DeviceMonitor, MonitorFlags, SelectedDeviceWatcher,
    format_device_summary};
pub use registry::{DaemonState, WakeAction};
pub use protocol::{Command, parse_command, handle_command, handle_tether, tether_precheck, tether_commit,
    render_response, peer_allowed, check_privileges, WatchOrder};
pub use locker::parse_session_ids;
pub use usb::{lookup_device, list_devices};
