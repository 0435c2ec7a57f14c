//! The interface state and every change the interface makes to it.

use vstd::prelude::*;
use crate::model::{
    Action, Config, GlobalStats, InputMode, Key, MenuPage, NodeInfo, PeerInfo, RouteInfo, StatsInfo,
};
use crate::random::{charset, rand_string};
use crate::text::{
    byte_prefix, decimal, encode_utf8, is_char_boundary, min_nat, occurs_in, push_char, push_decimal,
    text_contains, utf8_len,
};

verus! {

/// Everything the interface shows and remembers.
pub struct AppState {
    pub selected: usize,
    pub items: Vec<String>,
    pub current_page: MenuPage,
    pub input_mode: InputMode,
    pub input_value: String,
    pub peers: Vec<PeerInfo>,
    pub node_info: Option<NodeInfo>,
    pub routes: Vec<RouteInfo>,
    pub stats: Option<GlobalStats>,
    pub status_message: String,
    pub logs: Vec<String>,
    pub service_running: bool,
    pub current_network: String,
    pub network_list: Vec<String>,
    pub diagnostics_json: String,
    pub notes_content: String,
    pub config_content: String,
    pub install_path: String,
    pub is_installing: bool,
    pub install_progress: String,
    pub app_version: String,
}

/// `s` as an owned string.
pub fn owned(s: &str) -> (r: String)
    ensures
        r@ == s@,
{
    String::from_str(s)
}

/// `a` followed by `b`.
pub fn joined(a: &str, b: &str) -> (r: String)
    ensures
        r@ == a@ + b@,
{
    let mut r = String::from_str(a);
    r.append(b);
    r
}

/// The labels of the main menu, top to bottom.
pub open spec fn menu_labels() -> Seq<Seq<char>> {
    seq![
        "1. 安装/更新 EasyTier"@,
        "2. 部署新网络 (服务器)"@,
        "3. 加入现有网络"@,
        "4. Token 加入网络"@,
        "5. 服务管理"@,
        "6. 节点列表"@,
        "7. 路由信息"@,
        "8. 节点信息"@,
        "9. 带宽统计"@,
        "10. VPN Portal"@,
        "11. 网络诊断 (JSON)"@,
        "12. 配置文件"@,
        "13. 笔记/FAQ"@,
        "14. 关于"@,
    ]
}

/// The texts of a list of strings.
pub open spec fn texts(v: Seq<String>) -> Seq<Seq<char>> {
    v.map_values(|x: String| x@)
}

/// Where the installation goes when no home directory is known.
pub open spec fn fallback_install_path() -> Seq<char> {
    "~/..easytier"@
}

/// The page that choosing menu entry `sel` opens (entries past the last one
/// open nothing).
pub open spec fn entry_page(sel: int) -> MenuPage {
    if sel == 0 {
        MenuPage::Install
    } else if 1 <= sel <= 3 {
        MenuPage::Input
    } else if sel == 4 {
        MenuPage::ServiceManage
    } else if sel == 5 {
        MenuPage::PeerList
    } else if sel == 6 {
        MenuPage::RouteList
    } else if sel == 7 {
        MenuPage::NodeInfo
    } else if sel == 8 {
        MenuPage::BandwidthStats
    } else if sel == 9 {
        MenuPage::VpnPortal
    } else if sel == 10 {
        MenuPage::Diagnostics
    } else if sel == 11 {
        MenuPage::ConfigFile
    } else if sel == 12 {
        MenuPage::Notes
    } else {
        MenuPage::About
    }
}

/// The outside work that choosing menu entry `sel` asks for.
pub open spec fn entry_action(sel: int) -> Action {
    if sel == 4 {
        Action::CheckServiceStatus
    } else if sel == 5 {
        Action::LoadPeers
    } else if sel == 6 {
        Action::LoadRoutes
    } else if sel == 7 {
        Action::LoadNodeInfo
    } else if sel == 8 {
        Action::LoadStats
    } else if sel == 9 {
        Action::LoadVpnPortal
    } else if sel == 10 {
        Action::RunDiagnostics
    } else if sel == 11 {
        Action::LoadConfigFile
    } else if sel == 12 {
        Action::LoadNotes
    } else {
        Action::Nothing
    }
}

/// `post` differs from `pre` at most in the page, the input and the status line.
pub open spec fn only_nav_changed(pre: AppState, post: AppState) -> bool {
    post == (AppState {
        current_page: post.current_page,
        input_mode: post.input_mode,
        input_value: post.input_value,
        status_message: post.status_message,
        ..pre
    })
}

/// `post` is `pre` with the menu cursor moved one entry up, if it can.
pub open spec fn moved_up(pre: AppState, post: AppState) -> bool {
    &&& post.selected == if pre.selected > 0 { (pre.selected - 1) as usize } else { pre.selected }
    &&& post == (AppState { selected: post.selected, ..pre })
}

/// `post` is `pre` with the menu cursor moved one entry down, if it can.
pub open spec fn moved_down(pre: AppState, post: AppState) -> bool {
    &&& post.selected == if pre.selected + 1 < pre.items.len() {
        (pre.selected + 1) as usize
    } else {
        pre.selected
    }
    &&& post == (AppState { selected: post.selected, ..pre })
}

/// The outside work that refreshing `page` asks for.
pub open spec fn refresh_action(page: MenuPage) -> Action {
    match page {
        MenuPage::PeerList => Action::LoadPeers,
        MenuPage::NodeInfo => Action::LoadNodeInfo,
        MenuPage::RouteList => Action::LoadRoutes,
        MenuPage::ServiceManage => Action::CheckServiceStatus,
        MenuPage::BandwidthStats => Action::LoadStats,
        MenuPage::VpnPortal => Action::LoadVpnPortal,
        MenuPage::Diagnostics => Action::RunDiagnostics,
        MenuPage::ConfigFile => Action::LoadConfigFile,
        MenuPage::Notes => Action::LoadNotes,
        _ => Action::Nothing,
    }
}

/// `post` and `a` are the state and the outside work after `key` is pressed
/// in `pre`. On the input page every character but `q` is typed; elsewhere
/// the letters are commands.
pub open spec fn key_step(pre: AppState, key: Key, post: AppState, a: Action) -> bool {
    match key {
        Key::Char(c) => if c == 'q' {
            a == Action::Quit && post == pre
        } else if pre.current_page == MenuPage::Input {
            a == Action::Nothing && typed(pre, post, c)
        } else if c == 'b' {
            a == Action::Nothing && backed(pre, post)
        } else if c == 'r' {
            a == refresh_action(pre.current_page) && post == pre
        } else if c == 'i' {
            &&& a == if pre.current_page == MenuPage::Install {
                Action::InstallEasytier
            } else {
                Action::Nothing
            }
            &&& post == pre
        } else if c == 's' {
            &&& a == if pre.current_page == MenuPage::ServiceManage {
                Action::StartService
            } else {
                Action::Nothing
            }
            &&& post == pre
        } else if c == 'x' {
            &&& a == if pre.current_page == MenuPage::ServiceManage {
                Action::StopService
            } else {
                Action::Nothing
            }
            &&& post == pre
        } else {
            a == Action::Nothing && post == pre
        },
        Key::Esc => a == Action::Nothing && backed(pre, post),
        Key::Up => a == Action::Nothing && moved_up(pre, post),
        Key::Down => a == Action::Nothing && moved_down(pre, post),
        Key::Enter => if pre.current_page == MenuPage::Input {
            a == Action::Nothing && backed(pre, post)
        } else {
            a == entry_action(pre.selected as int) && entered(pre, post)
        },
        Key::Backspace => {
            &&& a == Action::Nothing
            &&& if pre.current_page == MenuPage::Input { erased(pre, post) } else { post == pre }
        },
        Key::Other => a == Action::Nothing && post == pre,
    }
}

/// What a key press may demand of the state: moving down needs a menu, and
/// submitting a token needs a cut point inside it.
pub open spec fn key_allowed(pre: AppState, key: Key) -> bool {
    &&& key == Key::Down ==> pre.items.len() > 0
    &&& (key == Key::Enter && pre.current_page == MenuPage::Input && pre.input_mode
        == InputMode::Token) ==> token_cut_ok(pre.input_value@)
}

/// `post` is `pre` after choosing the menu entry under the cursor.
pub open spec fn entered(pre: AppState, post: AppState) -> bool {
    let sel = pre.selected as int;
    &&& only_nav_changed(pre, post)
    &&& if sel > 13 {
        post == pre
    } else {
        &&& post.current_page == entry_page(sel)
        &&& if 1 <= sel <= 3 {
            &&& post.input_mode == (if sel == 3 { InputMode::Token } else { InputMode::NetworkName })
            &&& post.input_value@.len() == 0
        } else {
            &&& post.input_mode == pre.input_mode
            &&& post.input_value == pre.input_value
        }
        &&& sel == 0 ==> post.status_message@ == "安装/更新 EasyTier"@
        &&& sel == 1 ==> post.status_message@ == "输入网络名称 (留空自动生成)"@
        &&& sel == 2 ==> post.status_message@ == "输入网络名称"@
        &&& sel == 3 ==> post.status_message@ == "输入 Token (easytier://...)"@
        &&& 4 <= sel <= 12 ==> post.status_message == pre.status_message
        &&& sel == 13 ==> post.status_message@ == "EasyTier TUI v"@ + pre.app_version@
    }
}

/// `post` is `pre` after leaving for the main menu.
pub open spec fn backed(pre: AppState, post: AppState) -> bool {
    &&& only_nav_changed(pre, post)
    &&& post.current_page == MenuPage::Main
    &&& post.input_mode == InputMode::Inactive
    &&& post.input_value@.len() == 0
    &&& post.status_message@ == "返回主菜单"@
}

/// `post` is `pre` with `c` typed at the end of the input.
pub open spec fn typed(pre: AppState, post: AppState, c: char) -> bool {
    &&& post.input_value@ == pre.input_value@.push(c)
    &&& post == (AppState { input_value: post.input_value, ..pre })
}

/// `post` is `pre` with the last character of the input erased, if any.
pub open spec fn erased(pre: AppState, post: AppState) -> bool {
    &&& post.input_value@ == if pre.input_value@.len() > 0 {
        pre.input_value@.drop_last()
    } else {
        pre.input_value@
    }
    &&& post == (AppState { input_value: post.input_value, ..pre })
}

/// The prefix of every status line that reports a deployment.
pub open spec fn deploy_prefix() -> Seq<char> {
    "部署网络: "@
}

/// `name` is a made-up network name: `net-` followed by eight random
/// letters or digits.
pub open spec fn random_network_name(name: Seq<char>) -> bool {
    let tag = "net-"@;
    &&& name.len() == tag.len() + 8
    &&& name == tag + name.subrange(tag.len() as int, name.len() as int)
    &&& forall|i: int| tag.len() <= i < name.len() ==> charset().contains(#[trigger] name[i])
}

/// The part of `status` after its first `n` characters.
pub open spec fn after(status: Seq<char>, n: nat) -> Seq<char>
    recommends
        n <= status.len(),
{
    status.subrange(n as int, status.len() as int)
}

/// `post` is `pre` after deploying a network: the status line names the typed
/// input, or, when nothing was typed, a made-up name; the input is cleared.
pub open spec fn deployed(pre: AppState, post: AppState) -> bool {
    let status = post.status_message@;
    &&& post.input_value@.len() == 0
    &&& status.len() >= deploy_prefix().len()
    &&& status == deploy_prefix() + after(status, deploy_prefix().len())
    &&& if pre.input_value@.len() > 0 {
        status == deploy_prefix() + pre.input_value@
    } else {
        random_network_name(after(status, deploy_prefix().len()))
    }
    &&& post == (AppState {
        input_value: post.input_value,
        status_message: post.status_message,
        ..pre
    })
}

/// The prefix of every status line that reports joining by token.
pub open spec fn token_prefix() -> Seq<char> {
    "通过 Token 加入网络: "@
}

/// How many bytes of a token the status line shows at most.
pub open spec fn token_preview_bytes() -> nat {
    30
}

/// The token can be cut after its first `min(byte length, 30)` bytes without
/// splitting a character (and its length fits the machine).
pub open spec fn token_cut_ok(token: Seq<char>) -> bool {
    &&& utf8_len(token) <= usize::MAX
    &&& is_char_boundary(encode_utf8(token), min_nat(utf8_len(token), token_preview_bytes()) as int)
}

/// Whether `token` can be cut after its first `min(byte length, 30)` bytes
/// without splitting a character.
pub fn token_preview_cut_ok(token: &str) -> (b: bool)
    requires
        utf8_len(token@) <= usize::MAX,
    ensures
        b == token_cut_ok(token@),
{
    let total = token.len();
    let cut = if total < 30 { total } else { 30 };
    proof {
        vstd::utf8::encode_utf8_valid_utf8(token@);
    }
    token.is_char_boundary(cut)
}

/// `shown` is what the status line shows of `token`: its leading characters
/// that fill the first `min(byte length, 30)` bytes.
pub open spec fn token_preview(token: Seq<char>, shown: Seq<char>) -> bool {
    &&& shown.len() <= token.len()
    &&& shown == token.subrange(0, shown.len() as int)
    &&& utf8_len(shown) == min_nat(utf8_len(token), token_preview_bytes())
}

/// `post` is `pre` after joining by the token in the input.
pub open spec fn joined_by_token(pre: AppState, post: AppState) -> bool {
    let status = post.status_message@;
    &&& post.input_value@.len() == 0
    &&& status.len() >= token_prefix().len()
    &&& status == token_prefix() + after(status, token_prefix().len())
    &&& token_preview(pre.input_value@, after(status, token_prefix().len()))
    &&& post == (AppState {
        input_value: post.input_value,
        status_message: post.status_message,
        ..pre
    })
}

/// `post` is `pre` after the typed input is submitted.
pub open spec fn submitted(pre: AppState, post: AppState) -> bool {
    &&& post.input_mode == InputMode::Inactive
    &&& match pre.input_mode {
        InputMode::NetworkName => deployed(pre, AppState { input_mode: pre.input_mode, ..post }),
        InputMode::Token => joined_by_token(pre, AppState { input_mode: pre.input_mode, ..post }),
        _ => post == (AppState { input_mode: post.input_mode, ..pre }),
    }
}

/// The command-line tool used when neither the environment nor the settings
/// file names one.
pub open spec fn default_cli_path() -> Seq<char> {
    "easytier-cli"@
}

/// The command-line tool to run: the one named by the `EASYTIER_CLI`
/// environment variable, else the one in the settings file, else the default.
pub open spec fn chosen_cli_path(env_cli: Option<String>, config: Option<Config>) -> Seq<char> {
    match env_cli {
        Some(p) => p@,
        None => match config {
            Some(c) => match c.cli_path {
                Some(p) => p@,
                None => default_cli_path(),
            },
            None => default_cli_path(),
        },
    }
}

/// The status line shown when the network daemon gave no usable answer.
pub open spec fn core_down_message() -> Seq<char> {
    "easytier-core 未运行"@
}

/// The notes shown when there is no notes file to read.
pub open spec fn default_notes() -> Seq<char> {
    "# 笔记/FAQ\n\n在此记录您的笔记..."@
}

/// `post` is `pre` after the service status answer `stdout` (`None` when the
/// status command could not be run).
pub open spec fn service_checked(pre: AppState, post: AppState, stdout: Option<String>) -> bool {
    &&& post == (AppState {
        service_running: post.service_running,
        status_message: post.status_message,
        ..pre
    })
    &&& match stdout {
        Some(out) => {
            &&& post.service_running == (occurs_in("running"@, out@) || occurs_in("started"@, out@))
            &&& post.status_message@ == if post.service_running {
                "服务正在运行"@
            } else {
                "服务未运行"@
            }
        },
        None => {
            &&& !post.service_running
            &&& post.status_message@ == "无法检查服务状态"@
        },
    }
}

impl AppState {
    /// The initial state: main menu, cursor on the first entry, nothing
    /// loaded. `install_dir` is the installation directory under the user's
    /// home directory, when one is known.
    pub fn new(install_dir: Option<String>, app_version: String) -> (s: Self)
        ensures
            s.wf(),
            s.selected == 0,
            texts(s.items@) == menu_labels(),
            s.current_page == MenuPage::Main,
            s.input_mode == InputMode::Inactive,
            s.input_value@.len() == 0,
            s.peers@.len() == 0,
            s.node_info is None,
            s.routes@.len() == 0,
            s.stats is None,
            s.status_message@ == "就绪"@,
            s.logs@.len() == 0,
            !s.service_running,
            s.current_network@ == "default"@,
            texts(s.network_list@) == seq!["default"@],
            s.diagnostics_json@.len() == 0,
            s.notes_content@.len() == 0,
            s.config_content@.len() == 0,
            s.install_path@ == match install_dir {
                Some(d) => d@,
                None => fallback_install_path(),
            },
            !s.is_installing,
            s.install_progress@.len() == 0,
            s.app_version == app_version,
    {
        let install_path = match install_dir {
            Some(d) => d,
            None => owned("~/..easytier"),
        };
        let mut items: Vec<String> = Vec::new();
        items.push(owned("1. 安装/更新 EasyTier"));
        items.push(owned("2. 部署新网络 (服务器)"));
        items.push(owned("3. 加入现有网络"));
        items.push(owned("4. Token 加入网络"));
        items.push(owned("5. 服务管理"));
        items.push(owned("6. 节点列表"));
        items.push(owned("7. 路由信息"));
        items.push(owned("8. 节点信息"));
        items.push(owned("9. 带宽统计"));
        items.push(owned("10. VPN Portal"));
        items.push(owned("11. 网络诊断 (JSON)"));
        items.push(owned("12. 配置文件"));
        items.push(owned("13. 笔记/FAQ"));
        items.push(owned("14. 关于"));
        let mut network_list: Vec<String> = Vec::new();
        network_list.push(owned("default"));
        let s = AppState {
            selected: 0,
            items,
            current_page: MenuPage::Main,
            input_mode: InputMode::Inactive,
            input_value: String::new(),
            peers: Vec::new(),
            node_info: None,
            routes: Vec::new(),
            stats: None,
            status_message: owned("就绪"),
            logs: Vec::new(),
            service_running: false,
            current_network: owned("default"),
            network_list,
            diagnostics_json: String::new(),
            notes_content: String::new(),
            config_content: String::new(),
            install_path,
            is_installing: false,
            install_progress: String::new(),
            app_version,
        };
        assert(texts(s.items@) =~= menu_labels());
        assert(texts(s.network_list@) =~= seq!["default"@]);
        s
    }

    /// Picks the command-line tool: the `EASYTIER_CLI` variable `env_cli`
    /// first, then the settings file `config`, then `easytier-cli`.
    pub fn get_cli_path(env_cli: Option<String>, config: Option<Config>) -> (r: String)
        ensures
            r@ == chosen_cli_path(env_cli, config),
    {
        match env_cli {
            Some(p) => p,
            None => match config {
                Some(c) => match c.cli_path {
                    Some(p) => p,
                    None => owned("easytier-cli"),
                },
                None => owned("easytier-cli"),
            },
        }
    }

    /// The daemon executable inside the installation directory.
    pub fn get_core_path(&self) -> (r: String)
        ensures
            r@ == self.install_path@ + "/easytier-core"@,
    {
        joined(self.install_path.as_str(), "/easytier-core")
    }

    /// Records the answer of the service status command: the service runs when
    /// the answer mentions `running` or `started`.
    pub fn check_service_status(&mut self, stdout: Option<String>)
        ensures
            service_checked(*old(self), *final(self), stdout),
    {
        match stdout {
            Some(out) => {
                let running = text_contains(out.as_str(), "running") || text_contains(
                    out.as_str(),
                    "started",
                );
                self.service_running = running;
                self.status_message = if running {
                    owned("服务正在运行")
                } else {
                    owned("服务未运行")
                };
            },
            None => {
                self.service_running = false;
                self.status_message = owned("无法检查服务状态");
            },
        }
    }

    /// Records whether the start command ran and reported success.
    pub fn start_service(&mut self, succeeded: bool)
        ensures
            *final(self) == (AppState {
                service_running: final(self).service_running,
                status_message: final(self).status_message,
                ..*old(self)
            }),
            succeeded ==> final(self).service_running && final(self).status_message@ == "服务已启动"@,
            !succeeded ==> final(self).service_running == old(self).service_running
                && final(self).status_message@ == "启动失败"@,
    {
        if succeeded {
            self.service_running = true;
            self.status_message = owned("服务已启动");
        } else {
            self.status_message = owned("启动失败");
        }
    }

    /// Records whether the stop command ran and reported success.
    pub fn stop_service(&mut self, succeeded: bool)
        ensures
            *final(self) == (AppState {
                service_running: final(self).service_running,
                status_message: final(self).status_message,
                ..*old(self)
            }),
            succeeded ==> !final(self).service_running && final(self).status_message@ == "服务已停止"@,
            !succeeded ==> final(self).service_running == old(self).service_running
                && final(self).status_message@ == "停止失败"@,
    {
        if succeeded {
            self.service_running = false;
            self.status_message = owned("服务已停止");
        } else {
            self.status_message = owned("停止失败");
        }
    }

    /// Records the peer list (`None` when the daemon gave no readable list).
    pub fn load_peers(&mut self, peers: Option<Vec<PeerInfo>>)
        ensures
            *final(self) == (AppState {
                peers: final(self).peers,
                status_message: final(self).status_message,
                ..*old(self)
            }),
            match peers {
                Some(p) => final(self).peers == p && final(self).status_message@ == "已加载 "@
                    + decimal(p.len() as nat) + " 个节点"@,
                None => final(self).peers@.len() == 0 && final(self).status_message@
                    == core_down_message(),
            },
    {
        match peers {
            Some(p) => {
                let n = p.len();
                self.peers = p;
                let mut msg = owned("已加载 ");
                push_decimal(&mut msg, n as u64);
                msg.append(" 个节点");
                self.status_message = msg;
            },
            None => {
                self.status_message = owned("easytier-core 未运行");
                self.peers = Vec::new();
            },
        }
    }

    /// Records the local node's description (`None` when the daemon gave none).
    pub fn load_node_info(&mut self, info: Option<NodeInfo>)
        ensures
            *final(self) == (AppState {
                node_info: final(self).node_info,
                status_message: final(self).status_message,
                ..*old(self)
            }),
            final(self).node_info == info,
            final(self).status_message@ == match info {
                Some(_) => "节点信息已加载"@,
                None => core_down_message(),
            },
    {
        match info {
            Some(i) => {
                self.node_info = Some(i);
                self.status_message = owned("节点信息已加载");
            },
            None => {
                self.status_message = owned("easytier-core 未运行");
                self.node_info = None;
            },
        }
    }

    /// Records the route list (`None` when the daemon gave no readable list).
    pub fn load_routes(&mut self, routes: Option<Vec<RouteInfo>>)
        ensures
            *final(self) == (AppState {
                routes: final(self).routes,
                status_message: final(self).status_message,
                ..*old(self)
            }),
            match routes {
                Some(r) => final(self).routes == r && final(self).status_message@ == "已加载 "@
                    + decimal(r.len() as nat) + " 条路由"@,
                None => final(self).routes@.len() == 0 && final(self).status_message@
                    == core_down_message(),
            },
    {
        match routes {
            Some(r) => {
                let n = r.len();
                self.routes = r;
                let mut msg = owned("已加载 ");
                push_decimal(&mut msg, n as u64);
                msg.append(" 条路由");
                self.status_message = msg;
            },
            None => {
                self.status_message = owned("easytier-core 未运行");
                self.routes = Vec::new();
            },
        }
    }

    /// Records the traffic totals (`None` when the daemon gave none).
    pub fn load_stats(&mut self, stats: Option<StatsInfo>)
        ensures
            *final(self) == (AppState {
                stats: final(self).stats,
                status_message: final(self).status_message,
                ..*old(self)
            }),
            match stats {
                Some(s) => final(self).stats == s.global && final(self).status_message@
                    == "带宽统计已加载"@,
                None => final(self).stats is None && final(self).status_message@
                    == core_down_message(),
            },
    {
        match stats {
            Some(s) => {
                self.stats = s.global;
                self.status_message = owned("带宽统计已加载");
            },
            None => {
                self.status_message = owned("easytier-core 未运行");
                self.stats = None;
            },
        }
    }

    /// Records the VPN portal answer (`None` when the command failed); a
    /// failure keeps the text shown before.
    pub fn load_vpn_portal(&mut self, stdout: Option<String>)
        ensures
            *final(self) == (AppState {
                config_content: final(self).config_content,
                status_message: final(self).status_message,
                ..*old(self)
            }),
            match stdout {
                Some(out) => final(self).config_content == out && final(self).status_message@
                    == "VPN Portal 配置已加载"@,
                None => final(self).config_content == old(self).config_content
                    && final(self).status_message@ == core_down_message(),
            },
    {
        match stdout {
            Some(out) => {
                self.config_content = out;
                self.status_message = owned("VPN Portal 配置已加载");
            },
            None => {
                self.status_message = owned("easytier-core 未运行");
            },
        }
    }

    /// Records the daemon's configuration file (`None` when there is none to read).
    pub fn load_config_file(&mut self, content: Option<String>)
        ensures
            *final(self) == (AppState {
                config_content: final(self).config_content,
                status_message: final(self).status_message,
                ..*old(self)
            }),
            match content {
                Some(c) => final(self).config_content == c && final(self).status_message@
                    == "配置文件已加载"@,
                None => final(self).config_content@ == "配置文件不存在"@
                    && final(self).status_message@ == "无配置文件"@,
            },
    {
        match content {
            Some(c) => {
                self.config_content = c;
                self.status_message = owned("配置文件已加载");
            },
            None => {
                self.config_content = owned("配置文件不存在");
                self.status_message = owned("无配置文件");
            },
        }
    }

    /// Records the user's notes (`None` when there is no notes file); without a
    /// file, a template is shown and the status line is left as it was.
    pub fn load_notes(&mut self, content: Option<String>)
        ensures
            *final(self) == (AppState {
                notes_content: final(self).notes_content,
                status_message: final(self).status_message,
                ..*old(self)
            }),
            match content {
                Some(c) => final(self).notes_content == c && final(self).status_message@
                    == "笔记已加载"@,
                None => final(self).notes_content@ == default_notes()
                    && final(self).status_message == old(self).status_message,
            },
    {
        match content {
            Some(c) => {
                self.notes_content = c;
                self.status_message = owned("笔记已加载");
            },
            None => {
                self.notes_content = owned("# 笔记/FAQ\n\n在此记录您的笔记...");
            },
        }
    }

    /// Refreshes everything a diagnostic report covers, in the order node,
    /// peers, routes, traffic; each argument is that loader's outcome.
    pub fn run_diagnostics(
        &mut self,
        info: Option<NodeInfo>,
        peers: Option<Vec<PeerInfo>>,
        routes: Option<Vec<RouteInfo>>,
        stats: Option<StatsInfo>,
    )
        ensures
            *final(self) == (AppState {
                node_info: final(self).node_info,
                peers: final(self).peers,
                routes: final(self).routes,
                stats: final(self).stats,
                status_message: final(self).status_message,
                ..*old(self)
            }),
            final(self).node_info == info,
            match peers {
                Some(p) => final(self).peers == p,
                None => final(self).peers@.len() == 0,
            },
            match routes {
                Some(r) => final(self).routes == r,
                None => final(self).routes@.len() == 0,
            },
            match stats {
                Some(s) => final(self).stats == s.global && final(self).status_message@
                    == "带宽统计已加载"@,
                None => final(self).stats is None && final(self).status_message@
                    == core_down_message(),
            },
    {
        self.load_node_info(info);
        self.load_peers(peers);
        self.load_routes(routes);
        self.load_stats(stats);
    }

    /// Records the diagnostic report (`None` when it could not be written out);
    /// without a report nothing changes.
    pub fn record_diagnostics(&mut self, report: Option<String>)
        ensures
            match report {
                Some(r) => *final(self) == (AppState {
                    diagnostics_json: r,
                    status_message: final(self).status_message,
                    ..*old(self)
                }) && final(self).status_message@ == "诊断完成"@,
                None => *final(self) == *old(self),
            },
    {
        if let Some(r) = report {
            self.diagnostics_json = r;
            self.status_message = owned("诊断完成");
        }
    }

    /// The menu cursor points at an entry of a non-empty menu.
    pub open spec fn wf(&self) -> bool {
        &&& self.items.len() > 0
        &&& self.selected < self.items.len()
    }

    /// Moves the menu cursor one entry up, staying on the first entry.
    pub fn up(&mut self)
        ensures
            moved_up(*old(self), *final(self)),
    {
        if self.selected > 0 {
            self.selected -= 1;
        }
    }

    /// Moves the menu cursor one entry down, staying on the last entry.
    pub fn down(&mut self)
        requires
            old(self).items.len() > 0,
        ensures
            moved_down(*old(self), *final(self)),
    {
        if self.selected < self.items.len() - 1 {
            self.selected += 1;
        }
    }

    /// Opens the page of the menu entry under the cursor and says which
    /// outside work that page needs first.
    pub fn enter(&mut self) -> (a: Action)
        ensures
            entered(*old(self), *final(self)),
            a == entry_action(old(self).selected as int),
    {
        match self.selected {
            0 => {
                self.current_page = MenuPage::Install;
                self.status_message = owned("安装/更新 EasyTier");
                Action::Nothing
            },
            1 => {
                self.input_mode = InputMode::NetworkName;
                self.input_value = String::new();
                self.current_page = MenuPage::Input;
                self.status_message = owned("输入网络名称 (留空自动生成)");
                Action::Nothing
            },
            2 => {
                self.input_mode = InputMode::NetworkName;
                self.input_value = String::new();
                self.current_page = MenuPage::Input;
                self.status_message = owned("输入网络名称");
                Action::Nothing
            },
            3 => {
                self.input_mode = InputMode::Token;
                self.input_value = String::new();
                self.current_page = MenuPage::Input;
                self.status_message = owned("输入 Token (easytier://...)");
                Action::Nothing
            },
            4 => {
                self.current_page = MenuPage::ServiceManage;
                Action::CheckServiceStatus
            },
            5 => {
                self.current_page = MenuPage::PeerList;
                Action::LoadPeers
            },
            6 => {
                self.current_page = MenuPage::RouteList;
                Action::LoadRoutes
            },
            7 => {
                self.current_page = MenuPage::NodeInfo;
                Action::LoadNodeInfo
            },
            8 => {
                self.current_page = MenuPage::BandwidthStats;
                Action::LoadStats
            },
            9 => {
                self.current_page = MenuPage::VpnPortal;
                Action::LoadVpnPortal
            },
            10 => {
                self.current_page = MenuPage::Diagnostics;
                Action::RunDiagnostics
            },
            11 => {
                self.current_page = MenuPage::ConfigFile;
                Action::LoadConfigFile
            },
            12 => {
                self.current_page = MenuPage::Notes;
                Action::LoadNotes
            },
            13 => {
                self.current_page = MenuPage::About;
                self.status_message = joined("EasyTier TUI v", self.app_version.as_str());
                Action::Nothing
            },
            _ => Action::Nothing,
        }
    }

    /// Returns to the main menu, dropping any typed input.
    pub fn back(&mut self)
        ensures
            backed(*old(self), *final(self)),
    {
        self.current_page = MenuPage::Main;
        self.input_mode = InputMode::Inactive;
        self.input_value = String::new();
        self.status_message = owned("返回主菜单");
    }

    /// Types `c` at the end of the input.
    pub fn handle_input(&mut self, c: char)
        ensures
            typed(*old(self), *final(self), c),
    {
        push_char(&mut self.input_value, c);
    }

    /// Erases the last typed character, if any.
    pub fn handle_backspace(&mut self)
        ensures
            erased(*old(self), *final(self)),
    {
        let _ = self.input_value.pop();
    }

    /// Deploys a network named by the input, or by a fresh random name when the
    /// input is empty, and clears the input.
    pub fn deploy_network(&mut self)
        ensures
            deployed(*old(self), *final(self)),
    {
        let network_name = if self.input_value.as_str().is_empty() {
            let suffix = rand_string(8);
            let name = joined("net-", suffix.as_str());
            proof {
                reveal_strlit("net-");
                assert(name@ =~= "net-"@ + name@.subrange(4, name@.len() as int));
                assert forall|i: int| 4 <= i < name@.len() implies charset().contains(#[trigger] name@[i]) by {
                    assert(name@[i] == suffix@[i - 4]);
                }
                assert(random_network_name(name@));
            }
            name
        } else {
            self.input_value.clone()
        };
        let status = joined("部署网络: ", network_name.as_str());
        proof {
            assert(after(status@, deploy_prefix().len()) =~= network_name@);
        }
        self.status_message = status;
        self.input_value = String::new();
    }

    /// Joins a network by the token in the input, showing at most its first
    /// 30 bytes, and clears the input.
    pub fn join_by_token(&mut self)
        requires
            token_cut_ok(old(self).input_value@),
        ensures
            joined_by_token(*old(self), *final(self)),
    {
        let shown = byte_prefix(self.input_value.as_str(), 30);
        let status = joined("通过 Token 加入网络: ", shown.as_str());
        proof {
            assert(after(status@, token_prefix().len()) =~= shown@);
        }
        self.status_message = status;
        self.input_value = String::new();
    }

    /// Acts on the typed input according to what it was asked for, then
    /// leaves input mode.
    pub fn submit_input(&mut self)
        requires
            old(self).input_mode == InputMode::Token ==> token_cut_ok(old(self).input_value@),
        ensures
            submitted(*old(self), *final(self)),
    {
        match self.input_mode {
            InputMode::NetworkName => {
                self.deploy_network();
            },
            InputMode::Token => {
                self.join_by_token();
            },
            _ => {},
        }
        self.input_mode = InputMode::Inactive;
    }

    /// Reacts to one key press and says which outside work it asks for.
    pub fn handle_key(&mut self, key: Key) -> (a: Action)
        requires
            key_allowed(*old(self), key),
        ensures
            key_step(*old(self), key, *final(self), a),
    {
        let on_input = self.current_page == MenuPage::Input;
        match key {
            Key::Char('q') => Action::Quit,
            Key::Char(c) if on_input => {
                self.handle_input(c);
                Action::Nothing
            },
            Key::Esc | Key::Char('b') => {
                self.back();
                Action::Nothing
            },
            Key::Up => {
                self.up();
                Action::Nothing
            },
            Key::Down => {
                self.down();
                Action::Nothing
            },
            Key::Enter => {
                if on_input {
                    self.submit_input();
                    self.back();
                    Action::Nothing
                } else {
                    self.enter()
                }
            },
            Key::Char('r') => match self.current_page {
                MenuPage::PeerList => Action::LoadPeers,
                MenuPage::NodeInfo => Action::LoadNodeInfo,
                MenuPage::RouteList => Action::LoadRoutes,
                MenuPage::ServiceManage => Action::CheckServiceStatus,
                MenuPage::BandwidthStats => Action::LoadStats,
                MenuPage::VpnPortal => Action::LoadVpnPortal,
                MenuPage::Diagnostics => Action::RunDiagnostics,
                MenuPage::ConfigFile => Action::LoadConfigFile,
                MenuPage::Notes => Action::LoadNotes,
                _ => Action::Nothing,
            },
            Key::Char('i') => {
                if self.current_page == MenuPage::Install {
                    Action::InstallEasytier
                } else {
                    Action::Nothing
                }
            },
            Key::Char('s') => {
                if self.current_page == MenuPage::ServiceManage {
                    Action::StartService
                } else {
                    Action::Nothing
                }
            },
            Key::Char('x') => {
                if self.current_page == MenuPage::ServiceManage {
                    Action::StopService
                } else {
                    Action::Nothing
                }
            },
            Key::Char(_) => Action::Nothing,
            Key::Backspace => {
                if on_input {
                    self.handle_backspace();
                }
                Action::Nothing
            },
            Key::Other => Action::Nothing,
        }
    }
}

} // verus!
