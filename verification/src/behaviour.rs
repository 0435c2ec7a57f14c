//! What the interface's operations are for, stated over all inputs: which
//! archive a machine gets, where each menu entry leads, what each key does,
//! and what each page shows of the stored data.

use vstd::prelude::*;
use crate::install::{platform_text, spec_platform_for, strip_leading_v, Arch, Os, Platform};
use crate::model::{Action, Config, GlobalStats, InputMode, Key, MenuPage, NodeInfo};
use crate::screen::{count_text, join_texts, page_text, text_or, BodyText, Tone};
use crate::state::{chosen_cli_path, entered, key_step, texts, AppState};

verus! {

/// The archive fits the machine: only Linux machines get a Linux build, only
/// macOS machines a macOS build, and every other system, whatever its
/// processor, the Windows x86-64 build; an ARM Linux or macOS machine gets the
/// ARM build and any other Linux or macOS machine the x86-64 one.
pub proof fn archive_fits_machine(os: Os, arch: Arch)
    ensures
        ({
            let p = spec_platform_for(os, arch);
            &&& (p == Platform::WindowsX86_64) <==> (os == Os::Other)
            &&& (p == Platform::LinuxX86_64 || p == Platform::LinuxAarch64) <==> (os == Os::Linux)
            &&& (p == Platform::MacosX86_64 || p == Platform::MacosAarch64) <==> (os == Os::Macos)
            &&& (p == Platform::LinuxAarch64 || p == Platform::MacosAarch64) <==> (os != Os::Other
                && arch == Arch::Aarch64)
        }),
        os == Os::Other ==> platform_text(spec_platform_for(os, arch)) == "windows-x86_64"@,
{
}

/// The three entries that ask for a name or a token open the input page, in
/// the matching input mode, with nothing typed yet.
pub proof fn input_entries_open_the_input_page(pre: AppState, post: AppState)
    requires
        entered(pre, post),
        1 <= pre.selected <= 3,
    ensures
        post.current_page == MenuPage::Input,
        post.input_value@.len() == 0,
        post.input_mode == if pre.selected == 3 {
            InputMode::Token
        } else {
            InputMode::NetworkName
        },
{
}

/// Every other entry opens its own page: install, service, peers, routes,
/// node, traffic, VPN portal, diagnostics, settings file, notes, about; the
/// placeholder pages are never opened, and past the last entry nothing
/// happens.
pub proof fn entries_open_their_pages(pre: AppState, post: AppState)
    requires
        entered(pre, post),
    ensures
        pre.selected == 0 ==> post.current_page == MenuPage::Install,
        pre.selected == 4 ==> post.current_page == MenuPage::ServiceManage,
        pre.selected == 5 ==> post.current_page == MenuPage::PeerList,
        pre.selected == 6 ==> post.current_page == MenuPage::RouteList,
        pre.selected == 7 ==> post.current_page == MenuPage::NodeInfo,
        pre.selected == 8 ==> post.current_page == MenuPage::BandwidthStats,
        pre.selected == 9 ==> post.current_page == MenuPage::VpnPortal,
        pre.selected == 10 ==> post.current_page == MenuPage::Diagnostics,
        pre.selected == 11 ==> post.current_page == MenuPage::ConfigFile,
        pre.selected == 12 ==> post.current_page == MenuPage::Notes,
        pre.selected == 13 ==> post.current_page == MenuPage::About,
        pre.selected <= 13 ==> post.current_page != MenuPage::Deploy && post.current_page
            != MenuPage::JoinNetwork && post.current_page != MenuPage::TokenJoin
            && post.current_page != MenuPage::Main,
        pre.selected > 13 ==> post == pre,
        pre.selected <= 13 && pre.current_page != MenuPage::Input ==> ((post.current_page
            == MenuPage::Input) <==> (1 <= pre.selected <= 3)),
{
}

/// Esc leaves any page, the input page included, for the main menu: the input
/// mode ends, the typed text is dropped, the cursor stays, and the status line
/// says so.
pub proof fn escape_returns_to_main_menu(pre: AppState, post: AppState, a: Action)
    requires
        key_step(pre, Key::Esc, post, a),
    ensures
        a == Action::Nothing,
        post.current_page == MenuPage::Main,
        post.input_mode == InputMode::Inactive,
        post.input_value@.len() == 0,
        post.selected == pre.selected,
        post.status_message@ == "返回主菜单"@,
{
}

/// `q` quits from any page and changes nothing.
pub proof fn q_quits(pre: AppState, post: AppState, a: Action)
    requires
        key_step(pre, Key::Char('q'), post, a),
    ensures
        a == Action::Quit,
        post == pre,
{
}

/// On the input page every character but `q` is added to the end of the typed
/// text, and the page and input mode stay.
pub proof fn input_page_types_characters(pre: AppState, c: char, post: AppState, a: Action)
    requires
        pre.current_page == MenuPage::Input,
        c != 'q',
        key_step(pre, Key::Char(c), post, a),
    ensures
        a == Action::Nothing,
        post.input_value@ == pre.input_value@.push(c),
        post.current_page == MenuPage::Input,
        post.input_mode == pre.input_mode,
        post.status_message == pre.status_message,
{
}

/// On the input page Backspace removes the last typed character (if any) and
/// Enter submits and returns to the main menu with nothing typed.
pub proof fn input_page_erase_and_submit(pre: AppState, key: Key, post: AppState, a: Action)
    requires
        pre.current_page == MenuPage::Input,
        key == Key::Backspace || key == Key::Enter,
        key_step(pre, key, post, a),
    ensures
        a == Action::Nothing,
        key == Key::Backspace ==> post.current_page == MenuPage::Input && post.input_value@
            == if pre.input_value@.len() > 0 {
            pre.input_value@.drop_last()
        } else {
            pre.input_value@
        },
        key == Key::Enter ==> post.current_page == MenuPage::Main && post.input_value@.len() == 0
            && post.input_mode == InputMode::Inactive,
{
}

/// Away from the input page the letters are commands: `b` goes back, `r`
/// reloads what the page shows (and only on a page that shows loaded data),
/// `i` installs from the install page, `s` and `x` start and stop the service
/// from the service page; none of them changes the state, except `b`.
pub proof fn letter_commands(pre: AppState, c: char, post: AppState, a: Action)
    requires
        pre.current_page != MenuPage::Input,
        key_step(pre, Key::Char(c), post, a),
    ensures
        c == 'b' ==> post.current_page == MenuPage::Main && a == Action::Nothing,
        c != 'b' ==> post == pre,
        c == 'r' ==> (a == Action::LoadPeers <==> pre.current_page == MenuPage::PeerList),
        c == 'r' ==> (a == Action::LoadRoutes <==> pre.current_page == MenuPage::RouteList),
        c == 'r' ==> (a == Action::LoadNodeInfo <==> pre.current_page == MenuPage::NodeInfo),
        c == 'r' ==> (a == Action::LoadStats <==> pre.current_page == MenuPage::BandwidthStats),
        c == 'r' ==> (a == Action::CheckServiceStatus <==> pre.current_page
            == MenuPage::ServiceManage),
        c == 'r' ==> (a == Action::LoadVpnPortal <==> pre.current_page == MenuPage::VpnPortal),
        c == 'r' ==> (a == Action::RunDiagnostics <==> pre.current_page == MenuPage::Diagnostics),
        c == 'r' ==> (a == Action::LoadConfigFile <==> pre.current_page == MenuPage::ConfigFile),
        c == 'r' ==> (a == Action::LoadNotes <==> pre.current_page == MenuPage::Notes),
        c == 'i' ==> (a == Action::InstallEasytier <==> pre.current_page == MenuPage::Install),
        c == 'i' ==> (a == Action::InstallEasytier || a == Action::Nothing),
        c == 's' ==> (a == Action::StartService <==> pre.current_page == MenuPage::ServiceManage),
        c == 's' ==> (a == Action::StartService || a == Action::Nothing),
        c == 'x' ==> (a == Action::StopService <==> pre.current_page == MenuPage::ServiceManage),
        c == 'x' ==> (a == Action::StopService || a == Action::Nothing),
        c != 'b' && c != 'r' && c != 'i' && c != 's' && c != 'x' && c != 'q' ==> a
            == Action::Nothing,
{
}

/// The arrows move the menu cursor by one entry, stopping at either end, and
/// change nothing else.
pub proof fn arrows_move_by_one(pre: AppState, key: Key, post: AppState, a: Action)
    requires
        pre.wf(),
        key == Key::Up || key == Key::Down,
        key_step(pre, key, post, a),
    ensures
        a == Action::Nothing,
        key == Key::Up && pre.selected > 0 ==> post.selected + 1 == pre.selected,
        key == Key::Up && pre.selected == 0 ==> post.selected == 0,
        key == Key::Down && pre.selected + 1 < pre.items.len() ==> post.selected == pre.selected
            + 1,
        key == Key::Down && pre.selected + 1 == pre.items.len() ==> post.selected
            == pre.selected,
        post == (AppState { selected: post.selected, ..pre }),
{
}

/// The traffic page shows the stored totals in order: received bytes after
/// `接收: `, sent bytes after `发送: `, then received and sent packet counts,
/// with `N/A` for unknown byte totals and nothing for unknown counts.
pub proof fn traffic_page_shows_totals(s: AppState, g: GlobalStats)
    requires
        s.current_page == MenuPage::BandwidthStats,
        s.stats == Some(g),
    ensures
        page_text(s) == BodyText::Text(
            "接收: "@ + text_or(g.rx_bytes, "N/A"@) + "\n发送: "@ + text_or(g.tx_bytes, "N/A"@)
                + "\n接收包: "@ + count_text(g.rx_packets) + "\n发送包: "@ + count_text(
                g.tx_packets,
            ) + "\n\n提示: r 刷新, b 返回"@,
            Tone::Plain,
        ),
{
}

/// The node page shows the node's name, IPv4, IPv6, host name and version in
/// that order (`N/A` when unknown), then its listeners separated by commas.
pub proof fn node_page_shows_node(s: AppState, n: NodeInfo)
    requires
        s.current_page == MenuPage::NodeInfo,
        s.node_info == Some(n),
    ensures
        page_text(s) == BodyText::Text(
            "实例名: "@ + text_or(n.instance_name, "N/A"@) + "\nIPv4: "@ + text_or(n.ipv4, "N/A"@)
                + "\nIPv6: "@ + text_or(n.ipv6, "N/A"@) + "\n主机名: "@ + text_or(
                n.hostname,
                "N/A"@,
            ) + "\n版本: "@ + text_or(n.core_version, "N/A"@) + "\n监听端口: "@ + (match n.listeners {
                Some(l) => join_texts(texts(l@), ", "@),
                None => Seq::empty(),
            }),
            Tone::Plain,
        ),
{
}

/// Each row of the peer table shows one stored peer, in order, with its IPv4,
/// host name, cost, latency, received and sent bytes in that order (empty
/// when unknown); with no peers a warning is shown instead.
pub proof fn peer_table_shows_peers(s: AppState)
    requires
        s.current_page == MenuPage::PeerList,
    ensures
        s.peers@.len() == 0 ==> page_text(s) matches BodyText::Text(_, Tone::Warning),
        s.peers@.len() > 0 ==> (page_text(s) matches BodyText::Table(header, rows) && header
            == seq!["IPv4"@, "主机名"@, "状态"@, "延迟"@, "接收"@, "发送"@] && rows.len()
            == s.peers@.len() && forall|i: int|
            0 <= i < rows.len() ==> #[trigger] rows[i] == seq![
                text_or(s.peers@[i].ipv4, Seq::empty()),
                text_or(s.peers@[i].hostname, Seq::empty()),
                text_or(s.peers@[i].cost, Seq::empty()),
                text_or(s.peers@[i].lat_ms, Seq::empty()),
                text_or(s.peers@[i].rx_bytes, Seq::empty()),
                text_or(s.peers@[i].tx_bytes, Seq::empty()),
            ]),
{
}

/// Each row of the route table shows one stored route, in order, with its
/// destination, gateway, interface and metric (empty when unknown); with no
/// routes a warning is shown instead.
pub proof fn route_table_shows_routes(s: AppState)
    requires
        s.current_page == MenuPage::RouteList,
    ensures
        s.routes@.len() == 0 ==> page_text(s) matches BodyText::Text(_, Tone::Warning),
        s.routes@.len() > 0 ==> (page_text(s) matches BodyText::Table(header, rows) && header
            == seq!["目标"@, "网关"@, "接口"@, "Metric"@] && rows.len() == s.routes@.len()
            && forall|i: int|
            0 <= i < rows.len() ==> #[trigger] rows[i] == seq![
                text_or(s.routes@[i].dest, Seq::empty()),
                text_or(s.routes@[i].gateway, Seq::empty()),
                text_or(s.routes@[i].interface, Seq::empty()),
                text_or(s.routes@[i].metric, Seq::empty()),
            ]),
{
}

/// The input page shows the prompt of the current input mode followed by what
/// has been typed.
pub proof fn input_page_shows_prompt_and_text(s: AppState)
    requires
        s.current_page == MenuPage::Input,
    ensures
        page_text(s) == BodyText::Text(
            (match s.input_mode {
                InputMode::NetworkName => "输入网络名称 (留空自动生成)"@,
                InputMode::NetworkSecret => "输入网络密钥"@,
                InputMode::Token => "输入 Token (easytier://...)"@,
                _ => "输入"@,
            }) + "\n\n当前输入: "@ + s.input_value@ + "\n\nEnter 确认, Esc 取消"@,
            Tone::Plain,
        ),
{
}

/// The service page reports the service as running exactly when it is.
pub proof fn service_page_shows_state(s: AppState)
    requires
        s.current_page == MenuPage::ServiceManage,
    ensures
        page_text(s) == BodyText::Text(
            "【服务管理】\n\n服务状态: "@ + (if s.service_running {
                "[运行中] 🟢"@
            } else {
                "[未运行] 🔴"@
            }) + "\n\n操作说明:\ns - 启动服务\nx - 停止服务\nr - 刷新状态\nb - 返回\n"@,
            Tone::Plain,
        ),
{
}

/// The version read from a release tag is the tag with its leading `v`s cut
/// off: what remains does not start with `v`, and the tag is that many `v`s
/// followed by it.
pub proof fn version_is_tag_without_leading_vs(tag: Seq<char>)
    ensures
        strip_leading_v(tag).len() == 0 || strip_leading_v(tag)[0] != 'v',
        strip_leading_v(tag).len() <= tag.len(),
        tag == Seq::new((tag.len() - strip_leading_v(tag).len()) as nat, |i: int| 'v') + strip_leading_v(
            tag,
        ),
    decreases tag.len(),
{
    if tag.len() > 0 && tag[0] == 'v' {
        version_is_tag_without_leading_vs(tag.drop_first());
        let rest = strip_leading_v(tag.drop_first());
        let k = (tag.drop_first().len() - rest.len()) as nat;
        assert(tag =~= seq!['v'] + tag.drop_first());
        assert(Seq::new(k + 1, |i: int| 'v') =~= seq!['v'] + Seq::new(k, |i: int| 'v'));
    } else {
        assert(tag =~= Seq::new(0, |i: int| 'v') + tag);
    }
}

/// The tool named by `EASYTIER_CLI` wins over the settings file, which wins
/// over the default `easytier-cli`.
pub proof fn cli_path_precedence(env_cli: Option<String>, config: Option<Config>)
    ensures
        env_cli matches Some(p) ==> chosen_cli_path(env_cli, config) == p@,
        env_cli is None && (config matches Some(c) && c.cli_path matches Some(p)) ==> chosen_cli_path(
            env_cli,
            config,
        ) == config->0.cli_path->0@,
        env_cli is None && !(config matches Some(c) && c.cli_path is Some) ==> chosen_cli_path(
            env_cli,
            config,
        ) == "easytier-cli"@,
{
}

} // verus!
