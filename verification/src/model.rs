//! The values the interface shows and the events it reacts to.

use vstd::prelude::*;

verus! {

/// One peer of the virtual network, as `easytier-cli peer list` reports it.
#[derive(Debug, Clone)]
pub struct PeerInfo {
    pub ipv4: Option<String>,
    pub hostname: Option<String>,
    pub cost: Option<String>,
    pub lat_ms: Option<String>,
    pub rx_bytes: Option<String>,
    pub tx_bytes: Option<String>,
}

/// The local node, as `easytier-cli node` reports it.
#[derive(Debug, Clone)]
pub struct NodeInfo {
    pub instance_name: Option<String>,
    pub ipv4: Option<String>,
    pub ipv6: Option<String>,
    pub hostname: Option<String>,
    pub core_version: Option<String>,
    pub listeners: Option<Vec<String>>,
}

/// One route, as `easytier-cli route` reports it.
#[derive(Debug, Clone)]
pub struct RouteInfo {
    pub dest: Option<String>,
    pub gateway: Option<String>,
    pub interface: Option<String>,
    pub metric: Option<String>,
}

/// Traffic totals, as `easytier-cli stats show` reports them.
#[derive(Debug, Clone)]
pub struct GlobalStats {
    pub rx_bytes: Option<String>,
    pub tx_bytes: Option<String>,
    pub rx_packets: Option<u64>,
    pub tx_packets: Option<u64>,
}

/// The whole answer of `easytier-cli stats show`.
#[derive(Debug, Clone)]
pub struct StatsInfo {
    pub global: Option<GlobalStats>,
}

/// The user's settings file.
#[derive(Debug, Clone, Default)]
pub struct Config {
    pub cli_path: Option<String>,
    pub rpc_portal: Option<String>,
    pub install_path: Option<String>,
}

/// The pages of the interface.
#[derive(Debug, Clone, Copy, PartialEq, Eq, Structural)]
pub enum MenuPage {
    Main,
    Install,
    Deploy,
    JoinNetwork,
    TokenJoin,
    ServiceManage,
    PeerList,
    NodeInfo,
    RouteList,
    BandwidthStats,
    VpnPortal,
    Diagnostics,
    ConfigFile,
    Notes,
    About,
    Input,
}

/// What the text being typed on the input page is for.
#[derive(Debug, Clone, Copy, PartialEq, Eq, Structural)]
pub enum InputMode {
    Inactive,
    NetworkName,
    NetworkSecret,
    Token,
    Notes,
}

/// A text field being edited, with its cursor.
pub struct InputState {
    pub mode: InputMode,
    pub value: String,
    pub cursor_position: usize,
}

/// A key pressed by the user.
#[derive(Debug, Clone, Copy, PartialEq, Eq, Structural)]
pub enum Key {
    Char(char),
    Esc,
    Up,
    Down,
    Enter,
    Backspace,
    Other,
}

/// Outside work that the interface asks for after a key press: the caller
/// performs it and hands the outcome back through the matching method.
#[derive(Debug, Clone, Copy, PartialEq, Eq, Structural)]
pub enum Action {
    Nothing,
    Quit,
    CheckServiceStatus,
    StartService,
    StopService,
    LoadPeers,
    LoadRoutes,
    LoadNodeInfo,
    LoadStats,
    LoadVpnPortal,
    RunDiagnostics,
    LoadConfigFile,
    LoadNotes,
    InstallEasytier,
}

} // verus!
