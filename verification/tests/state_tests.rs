use easytier_tui::model::{
    Action, Config, GlobalStats, InputMode, Key, MenuPage, NodeInfo, PeerInfo, RouteInfo, StatsInfo,
};
use easytier_tui::state::{token_preview_cut_ok, AppState};

fn fresh() -> AppState {
    AppState::new(Some("/home/u/.easytier".to_string()), "0.1.0".to_string())
}

fn peer(ip: &str) -> PeerInfo {
    PeerInfo {
        ipv4: Some(ip.to_string()),
        hostname: None,
        cost: None,
        lat_ms: None,
        rx_bytes: None,
        tx_bytes: None,
    }
}

fn route(dest: &str) -> RouteInfo {
    RouteInfo { dest: Some(dest.to_string()), gateway: None, interface: None, metric: None }
}

#[test]
fn new_state_starts_on_main_menu() {
    let s = fresh();
    assert_eq!(s.selected, 0);
    assert_eq!(s.items.len(), 14);
    assert_eq!(s.items[0], "1. 安装/更新 EasyTier");
    assert_eq!(s.items[13], "14. 关于");
    assert_eq!(s.current_page, MenuPage::Main);
    assert_eq!(s.input_mode, InputMode::Inactive);
    assert_eq!(s.status_message, "就绪");
    assert_eq!(s.current_network, "default");
    assert_eq!(s.network_list, vec!["default".to_string()]);
    assert_eq!(s.install_path, "/home/u/.easytier");
    assert!(!s.service_running);
    assert!(s.peers.is_empty() && s.routes.is_empty());
    assert!(s.node_info.is_none() && s.stats.is_none());
}

#[test]
fn new_state_without_home_uses_fallback_path() {
    let s = AppState::new(None, "0.1.0".to_string());
    assert_eq!(s.install_path, "~/..easytier");
}

#[test]
fn up_stays_on_first_entry() {
    let mut s = fresh();
    s.up();
    assert_eq!(s.selected, 0);
}

#[test]
fn down_stays_on_last_entry() {
    let mut s = fresh();
    for _ in 0..20 {
        s.down();
    }
    assert_eq!(s.selected, 13);
}

#[test]
fn down_then_up_returns_to_start() {
    let mut s = fresh();
    s.down();
    s.down();
    assert_eq!(s.selected, 2);
    s.up();
    assert_eq!(s.selected, 1);
    s.down();
    assert_eq!(s.selected, 2);
}

#[test]
fn enter_install_entry() {
    let mut s = fresh();
    let a = s.enter();
    assert_eq!(a, Action::Nothing);
    assert_eq!(s.current_page, MenuPage::Install);
    assert_eq!(s.status_message, "安装/更新 EasyTier");
}

#[test]
fn enter_deploy_entry_opens_input() {
    let mut s = fresh();
    s.selected = 1;
    s.input_value = "left over".to_string();
    assert_eq!(s.enter(), Action::Nothing);
    assert_eq!(s.current_page, MenuPage::Input);
    assert_eq!(s.input_mode, InputMode::NetworkName);
    assert_eq!(s.input_value, "");
    assert_eq!(s.status_message, "输入网络名称 (留空自动生成)");
}

#[test]
fn enter_join_entry_opens_input() {
    let mut s = fresh();
    s.selected = 2;
    s.enter();
    assert_eq!(s.input_mode, InputMode::NetworkName);
    assert_eq!(s.status_message, "输入网络名称");
}

#[test]
fn enter_token_entry_opens_input() {
    let mut s = fresh();
    s.selected = 3;
    s.enter();
    assert_eq!(s.current_page, MenuPage::Input);
    assert_eq!(s.input_mode, InputMode::Token);
    assert_eq!(s.status_message, "输入 Token (easytier://...)");
}

#[test]
fn enter_data_entries_ask_for_loading() {
    let expected = [
        (4, MenuPage::ServiceManage, Action::CheckServiceStatus),
        (5, MenuPage::PeerList, Action::LoadPeers),
        (6, MenuPage::RouteList, Action::LoadRoutes),
        (7, MenuPage::NodeInfo, Action::LoadNodeInfo),
        (8, MenuPage::BandwidthStats, Action::LoadStats),
        (9, MenuPage::VpnPortal, Action::LoadVpnPortal),
        (10, MenuPage::Diagnostics, Action::RunDiagnostics),
        (11, MenuPage::ConfigFile, Action::LoadConfigFile),
        (12, MenuPage::Notes, Action::LoadNotes),
    ];
    for (sel, page, action) in expected {
        let mut s = fresh();
        s.selected = sel;
        assert_eq!(s.enter(), action);
        assert_eq!(s.current_page, page);
        assert_eq!(s.status_message, "就绪");
    }
}

#[test]
fn enter_about_shows_version() {
    let mut s = fresh();
    s.selected = 13;
    s.enter();
    assert_eq!(s.current_page, MenuPage::About);
    assert_eq!(s.status_message, "EasyTier TUI v0.1.0");
}

#[test]
fn enter_past_last_entry_does_nothing() {
    let mut s = fresh();
    s.selected = 20;
    assert_eq!(s.enter(), Action::Nothing);
    assert_eq!(s.current_page, MenuPage::Main);
    assert_eq!(s.status_message, "就绪");
}

#[test]
fn back_resets_input() {
    let mut s = fresh();
    s.selected = 3;
    s.enter();
    s.handle_input('x');
    s.back();
    assert_eq!(s.current_page, MenuPage::Main);
    assert_eq!(s.input_mode, InputMode::Inactive);
    assert_eq!(s.input_value, "");
    assert_eq!(s.status_message, "返回主菜单");
    assert_eq!(s.selected, 3);
}

#[test]
fn backspace_undoes_typing() {
    let mut s = fresh();
    s.handle_input('a');
    s.handle_input('网');
    assert_eq!(s.input_value, "a网");
    s.handle_backspace();
    assert_eq!(s.input_value, "a");
}

#[test]
fn backspace_on_empty_input_keeps_it_empty() {
    let mut s = fresh();
    s.handle_backspace();
    assert_eq!(s.input_value, "");
}

#[test]
fn deploy_with_typed_name() {
    let mut s = fresh();
    s.input_value = "office".to_string();
    s.deploy_network();
    assert_eq!(s.status_message, "部署网络: office");
    assert_eq!(s.input_value, "");
}

#[test]
fn deploy_without_name_makes_one_up() {
    let mut s = fresh();
    s.deploy_network();
    let name = s.status_message.strip_prefix("部署网络: ").unwrap();
    assert_eq!(name.len(), 12);
    assert!(name.starts_with("net-"));
    assert!(name[4..].chars().all(|c| c.is_ascii_lowercase() || c.is_ascii_digit()));
}

#[test]
fn join_by_short_token_shows_it_all() {
    let mut s = fresh();
    s.input_value = "easytier://abc".to_string();
    s.join_by_token();
    assert_eq!(s.status_message, "通过 Token 加入网络: easytier://abc");
    assert_eq!(s.input_value, "");
}

#[test]
fn join_by_long_token_shows_thirty_bytes() {
    let mut s = fresh();
    s.input_value = "easytier://0123456789abcdefghijklmnopqrstuvwxyz".to_string();
    s.join_by_token();
    assert_eq!(s.status_message, "通过 Token 加入网络: easytier://0123456789abcdefghi");
}

#[test]
fn join_by_token_cuts_between_characters() {
    let mut s = fresh();
    s.input_value = "网络网络网络网络网络网络".to_string();
    assert!(token_preview_cut_ok(&s.input_value));
    s.join_by_token();
    assert_eq!(s.status_message, "通过 Token 加入网络: 网络网络网络网络网络");
}

#[test]
fn token_cut_inside_a_character_is_refused() {
    assert!(!token_preview_cut_ok("a网络网络网络网络网络网络"));
    assert!(token_preview_cut_ok("short"));
}

#[test]
fn submit_network_name_deploys() {
    let mut s = fresh();
    s.input_mode = InputMode::NetworkName;
    s.input_value = "lab".to_string();
    s.submit_input();
    assert_eq!(s.status_message, "部署网络: lab");
    assert_eq!(s.input_mode, InputMode::Inactive);
}

#[test]
fn submit_token_joins() {
    let mut s = fresh();
    s.input_mode = InputMode::Token;
    s.input_value = "t0k".to_string();
    s.submit_input();
    assert_eq!(s.status_message, "通过 Token 加入网络: t0k");
    assert_eq!(s.input_mode, InputMode::Inactive);
}

#[test]
fn submit_other_mode_only_leaves_input_mode() {
    let mut s = fresh();
    s.input_mode = InputMode::NetworkSecret;
    s.input_value = "secret".to_string();
    s.submit_input();
    assert_eq!(s.input_value, "secret");
    assert_eq!(s.status_message, "就绪");
    assert_eq!(s.input_mode, InputMode::Inactive);
}

#[test]
fn keys_q_quits_and_b_goes_back() {
    let mut s = fresh();
    assert_eq!(s.handle_key(Key::Char('q')), Action::Quit);
    assert_eq!(s.status_message, "就绪");
    s.current_page = MenuPage::About;
    assert_eq!(s.handle_key(Key::Char('b')), Action::Nothing);
    assert_eq!(s.current_page, MenuPage::Main);
    s.current_page = MenuPage::About;
    assert_eq!(s.handle_key(Key::Esc), Action::Nothing);
    assert_eq!(s.current_page, MenuPage::Main);
}

#[test]
fn keys_move_cursor_and_enter() {
    let mut s = fresh();
    s.handle_key(Key::Down);
    s.handle_key(Key::Down);
    s.handle_key(Key::Down);
    s.handle_key(Key::Up);
    assert_eq!(s.selected, 2);
    s.handle_key(Key::Down);
    s.handle_key(Key::Down);
    s.handle_key(Key::Down);
    assert_eq!(s.handle_key(Key::Enter), Action::LoadPeers);
    assert_eq!(s.current_page, MenuPage::PeerList);
}

#[test]
fn refresh_key_depends_on_page() {
    let mut s = fresh();
    assert_eq!(s.handle_key(Key::Char('r')), Action::Nothing);
    s.current_page = MenuPage::RouteList;
    assert_eq!(s.handle_key(Key::Char('r')), Action::LoadRoutes);
    s.current_page = MenuPage::Notes;
    assert_eq!(s.handle_key(Key::Char('r')), Action::LoadNotes);
    s.current_page = MenuPage::ServiceManage;
    assert_eq!(s.handle_key(Key::Char('r')), Action::CheckServiceStatus);
}

#[test]
fn page_specific_keys() {
    let mut s = fresh();
    assert_eq!(s.handle_key(Key::Char('i')), Action::Nothing);
    s.current_page = MenuPage::Install;
    assert_eq!(s.handle_key(Key::Char('i')), Action::InstallEasytier);
    assert_eq!(s.handle_key(Key::Char('s')), Action::Nothing);
    s.current_page = MenuPage::ServiceManage;
    assert_eq!(s.handle_key(Key::Char('s')), Action::StartService);
    assert_eq!(s.handle_key(Key::Char('x')), Action::StopService);
}

#[test]
fn typing_on_input_page() {
    let mut s = fresh();
    s.selected = 1;
    s.handle_key(Key::Enter);
    for c in "net1".chars() {
        s.handle_key(Key::Char(c));
    }
    s.handle_key(Key::Backspace);
    assert_eq!(s.input_value, "net");
    // Only `q` stays a command on the input page.
    assert_eq!(s.handle_key(Key::Char('q')), Action::Quit);
    assert_eq!(s.input_value, "net");
}

#[test]
fn a_token_can_be_typed() {
    let mut s = fresh();
    s.selected = 3;
    s.handle_key(Key::Enter);
    for c in "easytier://bixrs".chars() {
        assert_eq!(s.handle_key(Key::Char(c)), Action::Nothing);
    }
    assert_eq!(s.input_value, "easytier://bixrs");
    assert_eq!(s.current_page, MenuPage::Input);
    assert_eq!(s.input_mode, InputMode::Token);
}

#[test]
fn typing_elsewhere_is_ignored() {
    let mut s = fresh();
    s.handle_key(Key::Char('z'));
    s.handle_key(Key::Backspace);
    s.handle_key(Key::Other);
    assert_eq!(s.input_value, "");
    assert_eq!(s.current_page, MenuPage::Main);
}

#[test]
fn enter_on_input_page_submits_and_returns() {
    let mut s = fresh();
    s.selected = 1;
    s.handle_key(Key::Enter);
    s.handle_key(Key::Char('h'));
    assert_eq!(s.handle_key(Key::Enter), Action::Nothing);
    assert_eq!(s.current_page, MenuPage::Main);
    assert_eq!(s.input_mode, InputMode::Inactive);
    assert_eq!(s.input_value, "");
    assert_eq!(s.status_message, "返回主菜单");
}

#[test]
fn cli_path_precedence() {
    let config = Config { cli_path: Some("/opt/et/cli".to_string()), rpc_portal: None, install_path: None };
    assert_eq!(AppState::get_cli_path(Some("/env/cli".to_string()), Some(config.clone())), "/env/cli");
    assert_eq!(AppState::get_cli_path(None, Some(config)), "/opt/et/cli");
    assert_eq!(AppState::get_cli_path(None, Some(Config::default())), "easytier-cli");
    assert_eq!(AppState::get_cli_path(None, None), "easytier-cli");
}

#[test]
fn core_path_is_inside_install_dir() {
    let s = fresh();
    assert_eq!(s.get_core_path(), "/home/u/.easytier/easytier-core");
}

#[test]
fn service_status_reads_the_answer() {
    let mut s = fresh();
    s.check_service_status(Some("Service is running".to_string()));
    assert!(s.service_running);
    assert_eq!(s.status_message, "服务正在运行");
    s.check_service_status(Some("service started".to_string()));
    assert!(s.service_running);
    s.check_service_status(Some("stopped".to_string()));
    assert!(!s.service_running);
    assert_eq!(s.status_message, "服务未运行");
    s.service_running = true;
    s.check_service_status(None);
    assert!(!s.service_running);
    assert_eq!(s.status_message, "无法检查服务状态");
}

#[test]
fn start_and_stop_service() {
    let mut s = fresh();
    s.start_service(false);
    assert!(!s.service_running);
    assert_eq!(s.status_message, "启动失败");
    s.start_service(true);
    assert!(s.service_running);
    assert_eq!(s.status_message, "服务已启动");
    s.stop_service(false);
    assert!(s.service_running);
    assert_eq!(s.status_message, "停止失败");
    s.stop_service(true);
    assert!(!s.service_running);
    assert_eq!(s.status_message, "服务已停止");
}

#[test]
fn load_peers_counts_them() {
    let mut s = fresh();
    s.load_peers(Some(vec![peer("10.0.0.1"), peer("10.0.0.2"), peer("10.0.0.3")]));
    assert_eq!(s.peers.len(), 3);
    assert_eq!(s.status_message, "已加载 3 个节点");
    s.load_peers(None);
    assert!(s.peers.is_empty());
    assert_eq!(s.status_message, "easytier-core 未运行");
}

#[test]
fn load_routes_counts_them() {
    let mut s = fresh();
    let routes: Vec<RouteInfo> = (0..12).map(|i| route(&format!("10.0.{}.0/24", i))).collect();
    s.load_routes(Some(routes));
    assert_eq!(s.status_message, "已加载 12 条路由");
    s.load_routes(Some(Vec::new()));
    assert_eq!(s.status_message, "已加载 0 条路由");
    s.load_routes(None);
    assert_eq!(s.status_message, "easytier-core 未运行");
}

#[test]
fn load_node_info_and_stats() {
    let mut s = fresh();
    let node = NodeInfo {
        instance_name: Some("n1".to_string()),
        ipv4: None,
        ipv6: None,
        hostname: None,
        core_version: None,
        listeners: None,
    };
    s.load_node_info(Some(node));
    assert_eq!(s.status_message, "节点信息已加载");
    assert!(s.node_info.is_some());
    s.load_node_info(None);
    assert!(s.node_info.is_none());
    assert_eq!(s.status_message, "easytier-core 未运行");
    let g = GlobalStats { rx_bytes: Some("1 KB".to_string()), tx_bytes: None, rx_packets: Some(7), tx_packets: None };
    s.load_stats(Some(StatsInfo { global: Some(g) }));
    assert_eq!(s.status_message, "带宽统计已加载");
    assert_eq!(s.stats.as_ref().unwrap().rx_packets, Some(7));
    s.load_stats(Some(StatsInfo { global: None }));
    assert!(s.stats.is_none());
    assert_eq!(s.status_message, "带宽统计已加载");
    s.load_stats(None);
    assert_eq!(s.status_message, "easytier-core 未运行");
}

#[test]
fn vpn_portal_failure_keeps_previous_text() {
    let mut s = fresh();
    s.load_vpn_portal(Some("{\"portal\":1}".to_string()));
    assert_eq!(s.config_content, "{\"portal\":1}");
    assert_eq!(s.status_message, "VPN Portal 配置已加载");
    s.load_vpn_portal(None);
    assert_eq!(s.config_content, "{\"portal\":1}");
    assert_eq!(s.status_message, "easytier-core 未运行");
}

#[test]
fn config_file_and_notes() {
    let mut s = fresh();
    s.load_config_file(None);
    assert_eq!(s.config_content, "配置文件不存在");
    assert_eq!(s.status_message, "无配置文件");
    s.load_config_file(Some("x = 1".to_string()));
    assert_eq!(s.config_content, "x = 1");
    assert_eq!(s.status_message, "配置文件已加载");
    s.load_notes(None);
    assert_eq!(s.notes_content, "# 笔记/FAQ\n\n在此记录您的笔记...");
    assert_eq!(s.status_message, "配置文件已加载");
    s.load_notes(Some("hello".to_string()));
    assert_eq!(s.notes_content, "hello");
    assert_eq!(s.status_message, "笔记已加载");
}

#[test]
fn diagnostics_refresh_then_record() {
    let mut s = fresh();
    s.run_diagnostics(None, Some(vec![peer("10.0.0.9")]), None, None);
    assert_eq!(s.peers.len(), 1);
    assert_eq!(s.status_message, "easytier-core 未运行");
    s.record_diagnostics(None);
    assert_eq!(s.diagnostics_json, "");
    s.record_diagnostics(Some("{}".to_string()));
    assert_eq!(s.diagnostics_json, "{}");
    assert_eq!(s.status_message, "诊断完成");
}
