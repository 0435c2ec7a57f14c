use easytier_tui::model::{GlobalStats, InputMode, MenuPage, NodeInfo, PeerInfo, RouteInfo};
use easytier_tui::screen::{describe_node, describe_stats, join_strings, Body, Tone};
use easytier_tui::state::AppState;

fn fresh() -> AppState {
    AppState::new(Some("/home/u/.easytier".to_string()), "0.1.0".to_string())
}

fn text_of(b: Body) -> (String, Tone) {
    match b {
        Body::Text { text, tone } => (text, tone),
        _ => panic!("not a text body"),
    }
}

#[test]
fn header_and_titles() {
    let mut s = fresh();
    assert_eq!(s.header_line(), " EasyTier TUI v0.1.0 | 方向键选择, Enter确认, Esc返回, q退出 ");
    assert_eq!(s.page_title(), " 主菜单 ");
    s.current_page = MenuPage::Diagnostics;
    assert_eq!(s.page_title(), " 网络诊断 (JSON) ");
    s.current_page = MenuPage::Input;
    assert_eq!(s.page_title(), " 输入 ");
}

#[test]
fn main_page_is_the_menu() {
    let s = fresh();
    assert!(matches!(s.page_body(), Body::Menu));
}

#[test]
fn install_page_text() {
    let mut s = fresh();
    s.current_page = MenuPage::Install;
    let (t, tone) = text_of(s.page_body());
    assert_eq!(
        t,
        "【安装/更新 EasyTier】\n\n安装路径: /home/u/.easytier\n\n操作说明:\ni - 开始安装/更新\nb - 返回\n\n提示: 将从 GitHub 下载最新版本"
    );
    assert_eq!(tone, Tone::Plain);
}

#[test]
fn service_page_text() {
    let mut s = fresh();
    s.current_page = MenuPage::ServiceManage;
    let (t, _) = text_of(s.page_body());
    assert_eq!(t, "【服务管理】\n\n服务状态: [未运行] 🔴\n\n操作说明:\ns - 启动服务\nx - 停止服务\nr - 刷新状态\nb - 返回\n");
    s.service_running = true;
    let (t, _) = text_of(s.page_body());
    assert!(t.contains("[运行中] 🟢"));
}

#[test]
fn empty_peer_list_warns() {
    let mut s = fresh();
    s.current_page = MenuPage::PeerList;
    let (t, tone) = text_of(s.page_body());
    assert_eq!(t, "无节点信息 (请确保 easytier-core 已运行)\n\n提示: r 刷新, b 返回");
    assert_eq!(tone, Tone::Warning);
}

#[test]
fn peer_table_rows() {
    let mut s = fresh();
    s.current_page = MenuPage::PeerList;
    s.peers = vec![PeerInfo {
        ipv4: Some("10.0.0.2".to_string()),
        hostname: Some("box".to_string()),
        cost: None,
        lat_ms: Some("3".to_string()),
        rx_bytes: None,
        tx_bytes: Some("9 B".to_string()),
    }];
    match s.page_body() {
        Body::Table { header, rows } => {
            assert_eq!(header, vec!["IPv4", "主机名", "状态", "延迟", "接收", "发送"]);
            assert_eq!(rows, vec![vec!["10.0.0.2", "box", "", "3", "", "9 B"]]);
        },
        _ => panic!("expected a table"),
    }
}

#[test]
fn route_table_rows() {
    let mut s = fresh();
    s.current_page = MenuPage::RouteList;
    let (t, tone) = text_of(s.page_body());
    assert_eq!(t, "无路由信息\n\n提示: r 刷新, b 返回");
    assert_eq!(tone, Tone::Warning);
    s.routes = vec![
        RouteInfo { dest: Some("10.0.0.0/24".to_string()), gateway: None, interface: Some("et0".to_string()), metric: Some("1".to_string()) },
        RouteInfo { dest: None, gateway: Some("10.0.0.1".to_string()), interface: None, metric: None },
    ];
    match s.page_body() {
        Body::Table { header, rows } => {
            assert_eq!(header, vec!["目标", "网关", "接口", "Metric"]);
            assert_eq!(rows, vec![vec!["10.0.0.0/24", "", "et0", "1"], vec!["", "10.0.0.1", "", ""]]);
        },
        _ => panic!("expected a table"),
    }
}

#[test]
fn node_description() {
    let n = NodeInfo {
        instance_name: Some("n1".to_string()),
        ipv4: Some("10.0.0.1".to_string()),
        ipv6: None,
        hostname: Some("host".to_string()),
        core_version: None,
        listeners: Some(vec!["tcp://0.0.0.0:11010".to_string(), "udp://0.0.0.0:11010".to_string()]),
    };
    assert_eq!(
        describe_node(&n),
        "实例名: n1\nIPv4: 10.0.0.1\nIPv6: N/A\n主机名: host\n版本: N/A\n监听端口: tcp://0.0.0.0:11010, udp://0.0.0.0:11010"
    );
    let mut s = fresh();
    s.current_page = MenuPage::NodeInfo;
    assert_eq!(text_of(s.page_body()).0, "无节点信息\n\n提示: r 刷新, b 返回");
    s.node_info = Some(NodeInfo { listeners: None, ..n });
    assert!(text_of(s.page_body()).0.ends_with("\n监听端口: "));
}

#[test]
fn stats_description() {
    let g = GlobalStats { rx_bytes: Some("1 MB".to_string()), tx_bytes: None, rx_packets: Some(1200), tx_packets: None };
    assert_eq!(describe_stats(&g), "接收: 1 MB\n发送: N/A\n接收包: 1200\n发送包: \n\n提示: r 刷新, b 返回");
    let mut s = fresh();
    s.current_page = MenuPage::BandwidthStats;
    assert_eq!(text_of(s.page_body()).0, "无统计信息\n\n提示: r 刷新, b 返回");
}

#[test]
fn join_with_separator() {
    assert_eq!(join_strings(&vec![], ", "), "");
    assert_eq!(join_strings(&vec!["a".to_string()], ", "), "a");
    assert_eq!(join_strings(&vec!["a".to_string(), "b".to_string(), "c".to_string()], ", "), "a, b, c");
}

#[test]
fn content_pages_show_stored_text() {
    let mut s = fresh();
    s.config_content = "cfg".to_string();
    s.diagnostics_json = "{}".to_string();
    s.notes_content = "notes".to_string();
    s.current_page = MenuPage::VpnPortal;
    assert_eq!(text_of(s.page_body()).0, "cfg");
    s.current_page = MenuPage::ConfigFile;
    assert_eq!(text_of(s.page_body()).0, "cfg");
    s.current_page = MenuPage::Diagnostics;
    assert_eq!(text_of(s.page_body()).0, "{}");
    s.current_page = MenuPage::Notes;
    assert_eq!(text_of(s.page_body()).0, "notes");
    s.current_page = MenuPage::Deploy;
    assert_eq!(text_of(s.page_body()).0, "【部署新网络】");
}

#[test]
fn about_page_text() {
    let mut s = fresh();
    s.current_page = MenuPage::About;
    assert_eq!(
        text_of(s.page_body()).0,
        " EasyTier TUI v0.1.0\n\n基于 Rust + Ratatui 开发\n用于管理 EasyTier 网络\n\n功能:\n- 安装/更新 EasyTier\n- 部署/加入网络\n- 服务管理\n- 节点/路由监控\n- 网络诊断\n- 配置文件管理\n- 笔记功能\n\n按 b 返回"
    );
}

#[test]
fn input_page_text() {
    let mut s = fresh();
    s.current_page = MenuPage::Input;
    s.input_mode = InputMode::Token;
    s.input_value = "easytier://x".to_string();
    assert_eq!(text_of(s.page_body()).0, "输入 Token (easytier://...)\n\n当前输入: easytier://x\n\nEnter 确认, Esc 取消");
    s.input_mode = InputMode::NetworkSecret;
    s.input_value = String::new();
    assert_eq!(text_of(s.page_body()).0, "输入网络密钥\n\n当前输入: \n\nEnter 确认, Esc 取消");
    s.input_mode = InputMode::Notes;
    assert!(text_of(s.page_body()).0.starts_with("输入\n\n"));
}
