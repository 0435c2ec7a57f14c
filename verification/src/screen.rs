//! What each page shows: its title, its body (the menu, a text or a table)
//! and the header line.

use vstd::prelude::*;
use crate::model::{GlobalStats, InputMode, MenuPage, NodeInfo, PeerInfo, RouteInfo};
use crate::state::{joined, owned, texts, AppState};
use crate::text::{decimal, push_decimal};

verus! {

/// How a text body is coloured.
#[derive(Debug, Clone, Copy, PartialEq, Eq, Structural)]
pub enum Tone {
    Plain,
    Warning,
}

/// The body of a page.
pub enum Body {
    /// The main menu, with the entry under the cursor highlighted.
    Menu,
    /// A block of text.
    Text { text: String, tone: Tone },
    /// A table with a header row.
    Table { header: Vec<String>, rows: Vec<Vec<String>> },
}

/// The texts a page body carries.
pub enum BodyText {
    Menu,
    Text(Seq<char>, Tone),
    Table(Seq<Seq<char>>, Seq<Seq<Seq<char>>>),
}

/// The texts inside `b`.
pub open spec fn body_text(b: Body) -> BodyText {
    match b {
        Body::Menu => BodyText::Menu,
        Body::Text { text, tone } => BodyText::Text(text@, tone),
        Body::Table { header, rows } => BodyText::Table(
            texts(header@),
            rows@.map_values(|r: Vec<String>| texts(r@)),
        ),
    }
}

/// The text of `o`, or `d` when it is absent.
pub open spec fn text_or(o: Option<String>, d: Seq<char>) -> Seq<char> {
    match o {
        Some(s) => s@,
        None => d,
    }
}

/// The strings of `v` separated by `sep`.
pub open spec fn join_texts(v: Seq<Seq<char>>, sep: Seq<char>) -> Seq<char>
    decreases v.len(),
{
    if v.len() == 0 {
        Seq::empty()
    } else if v.len() == 1 {
        v[0]
    } else {
        join_texts(v.drop_last(), sep) + sep + v.last()
    }
}

/// The row of the peer table for `p`.
pub open spec fn peer_row(p: PeerInfo) -> Seq<Seq<char>> {
    seq![
        text_or(p.ipv4, Seq::empty()),
        text_or(p.hostname, Seq::empty()),
        text_or(p.cost, Seq::empty()),
        text_or(p.lat_ms, Seq::empty()),
        text_or(p.rx_bytes, Seq::empty()),
        text_or(p.tx_bytes, Seq::empty()),
    ]
}

/// The row of the route table for `r`.
pub open spec fn route_row(r: RouteInfo) -> Seq<Seq<char>> {
    seq![
        text_or(r.dest, Seq::empty()),
        text_or(r.gateway, Seq::empty()),
        text_or(r.interface, Seq::empty()),
        text_or(r.metric, Seq::empty()),
    ]
}

/// The description of the local node.
pub open spec fn node_text(n: NodeInfo) -> Seq<char> {
    "实例名: "@ + text_or(n.instance_name, "N/A"@) + "\nIPv4: "@ + text_or(n.ipv4, "N/A"@)
        + "\nIPv6: "@ + text_or(n.ipv6, "N/A"@) + "\n主机名: "@ + text_or(n.hostname, "N/A"@)
        + "\n版本: "@ + text_or(n.core_version, "N/A"@) + "\n监听端口: "@ + match n.listeners {
        Some(l) => join_texts(texts(l@), ", "@),
        None => Seq::empty(),
    }
}

/// A packet count as shown, or nothing when it is unknown.
pub open spec fn count_text(c: Option<u64>) -> Seq<char> {
    match c {
        Some(n) => decimal(n as nat),
        None => Seq::empty(),
    }
}

/// The description of the traffic totals.
pub open spec fn stats_text(g: GlobalStats) -> Seq<char> {
    "接收: "@ + text_or(g.rx_bytes, "N/A"@) + "\n发送: "@ + text_or(g.tx_bytes, "N/A"@)
        + "\n接收包: "@ + count_text(g.rx_packets) + "\n发送包: "@ + count_text(g.tx_packets)
        + "\n\n提示: r 刷新, b 返回"@
}

/// The prompt of the input page.
pub open spec fn prompt_text(mode: InputMode) -> Seq<char> {
    match mode {
        InputMode::NetworkName => "输入网络名称 (留空自动生成)"@,
        InputMode::NetworkSecret => "输入网络密钥"@,
        InputMode::Token => "输入 Token (easytier://...)"@,
        _ => "输入"@,
    }
}

/// The title of the frame around `page`.
pub open spec fn title_text(page: MenuPage) -> Seq<char> {
    match page {
        MenuPage::Main => " 主菜单 "@,
        MenuPage::Install => " 安装 EasyTier "@,
        MenuPage::Deploy => " 部署网络 "@,
        MenuPage::JoinNetwork => " 加入网络 "@,
        MenuPage::TokenJoin => " Token 加入 "@,
        MenuPage::ServiceManage => " 服务管理 "@,
        MenuPage::PeerList => " 节点列表 "@,
        MenuPage::NodeInfo => " 节点信息 "@,
        MenuPage::RouteList => " 路由列表 "@,
        MenuPage::BandwidthStats => " 带宽统计 "@,
        MenuPage::VpnPortal => " VPN Portal "@,
        MenuPage::Diagnostics => " 网络诊断 (JSON) "@,
        MenuPage::ConfigFile => " 配置文件 "@,
        MenuPage::Notes => " 笔记/FAQ "@,
        MenuPage::About => " 关于 "@,
        MenuPage::Input => " 输入 "@,
    }
}

/// The body of the current page of `s`.
pub open spec fn page_text(s: AppState) -> BodyText {
    match s.current_page {
        MenuPage::Main => BodyText::Menu,
        MenuPage::Install => BodyText::Text(
            "【安装/更新 EasyTier】\n\n安装路径: "@ + s.install_path@
                + "\n\n操作说明:\ni - 开始安装/更新\nb - 返回\n\n提示: 将从 GitHub 下载最新版本"@,
            Tone::Plain,
        ),
        MenuPage::Deploy => BodyText::Text("【部署新网络】"@, Tone::Plain),
        MenuPage::JoinNetwork => BodyText::Text("【加入现有网络】"@, Tone::Plain),
        MenuPage::TokenJoin => BodyText::Text("【Token 加入网络】"@, Tone::Plain),
        MenuPage::ServiceManage => BodyText::Text(
            "【服务管理】\n\n服务状态: "@ + (if s.service_running {
                "[运行中] 🟢"@
            } else {
                "[未运行] 🔴"@
            }) + "\n\n操作说明:\ns - 启动服务\nx - 停止服务\nr - 刷新状态\nb - 返回\n"@,
            Tone::Plain,
        ),
        MenuPage::PeerList => if s.peers@.len() == 0 {
            BodyText::Text(
                "无节点信息 (请确保 easytier-core 已运行)\n\n提示: r 刷新, b 返回"@,
                Tone::Warning,
            )
        } else {
            BodyText::Table(
                peer_header(),
                s.peers@.map_values(|p: PeerInfo| peer_row(p)),
            )
        },
        MenuPage::NodeInfo => BodyText::Text(
            match s.node_info {
                Some(n) => node_text(n),
                None => "无节点信息\n\n提示: r 刷新, b 返回"@,
            },
            Tone::Plain,
        ),
        MenuPage::RouteList => if s.routes@.len() == 0 {
            BodyText::Text("无路由信息\n\n提示: r 刷新, b 返回"@, Tone::Warning)
        } else {
            BodyText::Table(
                route_header(),
                s.routes@.map_values(|r: RouteInfo| route_row(r)),
            )
        },
        MenuPage::BandwidthStats => BodyText::Text(
            match s.stats {
                Some(g) => stats_text(g),
                None => "无统计信息\n\n提示: r 刷新, b 返回"@,
            },
            Tone::Plain,
        ),
        MenuPage::VpnPortal => BodyText::Text(s.config_content@, Tone::Plain),
        MenuPage::Diagnostics => BodyText::Text(s.diagnostics_json@, Tone::Plain),
        MenuPage::ConfigFile => BodyText::Text(s.config_content@, Tone::Plain),
        MenuPage::Notes => BodyText::Text(s.notes_content@, Tone::Plain),
        MenuPage::About => BodyText::Text(
            " EasyTier TUI v"@ + s.app_version@
                + "\n\n基于 Rust + Ratatui 开发\n用于管理 EasyTier 网络\n\n功能:\n- 安装/更新 EasyTier\n- 部署/加入网络\n- 服务管理\n- 节点/路由监控\n- 网络诊断\n- 配置文件管理\n- 笔记功能\n\n按 b 返回"@,
            Tone::Plain,
        ),
        MenuPage::Input => BodyText::Text(
            prompt_text(s.input_mode) + "\n\n当前输入: "@ + s.input_value@
                + "\n\nEnter 确认, Esc 取消"@,
            Tone::Plain,
        ),
    }
}

/// The text of `o`, or `d` when it is absent.
fn text_or_default(o: &Option<String>, d: &str) -> (r: String)
    ensures
        r@ == text_or(*o, d@),
{
    match o {
        Some(s) => s.clone(),
        None => owned(d),
    }
}

/// Appends the text of `o`, or `d` when it is absent.
fn push_text_or(s: &mut String, o: &Option<String>, d: &str)
    ensures
        final(s)@ == old(s)@ + text_or(*o, d@),
{
    match o {
        Some(t) => s.append(t.as_str()),
        None => s.append(d),
    }
}

/// The strings of `v` separated by `sep`.
pub fn join_strings(v: &Vec<String>, sep: &str) -> (r: String)
    ensures
        r@ == join_texts(texts(v@), sep@),
{
    let mut r = String::new();
    let mut k: usize = 0;
    while k < v.len()
        invariant
            k <= v.len(),
            r@ == join_texts(texts(v@.take(k as int)), sep@),
        decreases v.len() - k,
    {
        proof {
            assert(texts(v@.take(k + 1)).drop_last() =~= texts(v@.take(k as int)));
            assert(texts(v@.take(k + 1)).last() == v@[k as int]@);
        }
        if k > 0 {
            r.append(sep);
        }
        r.append(v[k].as_str());
        proof {
            if k == 0 {
                assert(r@ =~= v@[0]@);
            }
        }
        k = k + 1;
    }
    assert(v@.take(v.len() as int) =~= v@);
    r
}

/// Appends a packet count, or nothing when it is unknown.
fn push_count(s: &mut String, c: Option<u64>)
    ensures
        final(s)@ == old(s)@ + count_text(c),
{
    match c {
        Some(n) => push_decimal(s, n),
        None => {
            assert(old(s)@ + count_text(c) =~= old(s)@);
        },
    }
}

/// The description of the local node.
pub fn describe_node(n: &NodeInfo) -> (r: String)
    ensures
        r@ == node_text(*n),
{
    let mut r = owned("实例名: ");
    push_text_or(&mut r, &n.instance_name, "N/A");
    r.append("\nIPv4: ");
    push_text_or(&mut r, &n.ipv4, "N/A");
    r.append("\nIPv6: ");
    push_text_or(&mut r, &n.ipv6, "N/A");
    r.append("\n主机名: ");
    push_text_or(&mut r, &n.hostname, "N/A");
    r.append("\n版本: ");
    push_text_or(&mut r, &n.core_version, "N/A");
    r.append("\n监听端口: ");
    match &n.listeners {
        Some(l) => {
            let j = join_strings(l, ", ");
            r.append(j.as_str());
        },
        None => {},
    }
    assert(r@ =~= node_text(*n));
    r
}

/// The description of the traffic totals.
pub fn describe_stats(g: &GlobalStats) -> (r: String)
    ensures
        r@ == stats_text(*g),
{
    let mut r = owned("接收: ");
    push_text_or(&mut r, &g.rx_bytes, "N/A");
    r.append("\n发送: ");
    push_text_or(&mut r, &g.tx_bytes, "N/A");
    r.append("\n接收包: ");
    push_count(&mut r, g.rx_packets);
    r.append("\n发送包: ");
    push_count(&mut r, g.tx_packets);
    r.append("\n\n提示: r 刷新, b 返回");
    r
}

/// The row of the peer table for `p`.
pub fn peer_cells(p: &PeerInfo) -> (r: Vec<String>)
    ensures
        texts(r@) == peer_row(*p),
{
    let mut r: Vec<String> = Vec::new();
    r.push(text_or_default(&p.ipv4, ""));
    r.push(text_or_default(&p.hostname, ""));
    r.push(text_or_default(&p.cost, ""));
    r.push(text_or_default(&p.lat_ms, ""));
    r.push(text_or_default(&p.rx_bytes, ""));
    r.push(text_or_default(&p.tx_bytes, ""));
    proof {
        reveal_strlit("");
        assert(""@ =~= Seq::<char>::empty());
    }
    assert(texts(r@) =~= peer_row(*p));
    r
}

/// The row of the route table for `r`.
pub fn route_cells(r: &RouteInfo) -> (c: Vec<String>)
    ensures
        texts(c@) == route_row(*r),
{
    let mut c: Vec<String> = Vec::new();
    c.push(text_or_default(&r.dest, ""));
    c.push(text_or_default(&r.gateway, ""));
    c.push(text_or_default(&r.interface, ""));
    c.push(text_or_default(&r.metric, ""));
    proof {
        reveal_strlit("");
        assert(""@ =~= Seq::<char>::empty());
    }
    assert(texts(c@) =~= route_row(*r));
    c
}

/// The texts of a list of table rows.
pub open spec fn row_texts(rows: Seq<Vec<String>>) -> Seq<Seq<Seq<char>>> {
    rows.map_values(|r: Vec<String>| texts(r@))
}

/// The rows of the peer table.
pub fn peer_table(peers: &Vec<PeerInfo>) -> (rows: Vec<Vec<String>>)
    ensures
        row_texts(rows@) == peers@.map_values(|p: PeerInfo| peer_row(p)),
{
    let mut rows: Vec<Vec<String>> = Vec::new();
    let mut k: usize = 0;
    while k < peers.len()
        invariant
            k <= peers.len(),
            row_texts(rows@) == peers@.take(k as int).map_values(|p: PeerInfo| peer_row(p)),
        decreases peers.len() - k,
    {
        let row = peer_cells(&peers[k]);
        let ghost prev = rows@;
        rows.push(row);
        assert(row_texts(rows@) =~= row_texts(prev).push(peer_row(peers@[k as int])));
        assert(peers@.take(k + 1) =~= peers@.take(k as int).push(peers@[k as int]));
        assert(row_texts(rows@) =~= peers@.take(k + 1).map_values(|p: PeerInfo| peer_row(p)));
        k = k + 1;
    }
    assert(peers@.take(peers.len() as int) =~= peers@);
    rows
}

/// The rows of the route table.
pub fn route_table(routes: &Vec<RouteInfo>) -> (rows: Vec<Vec<String>>)
    ensures
        row_texts(rows@) == routes@.map_values(|r: RouteInfo| route_row(r)),
{
    let mut rows: Vec<Vec<String>> = Vec::new();
    let mut k: usize = 0;
    while k < routes.len()
        invariant
            k <= routes.len(),
            row_texts(rows@) == routes@.take(k as int).map_values(|r: RouteInfo| route_row(r)),
        decreases routes.len() - k,
    {
        let row = route_cells(&routes[k]);
        let ghost prev = rows@;
        rows.push(row);
        assert(row_texts(rows@) =~= row_texts(prev).push(route_row(routes@[k as int])));
        assert(routes@.take(k + 1) =~= routes@.take(k as int).push(routes@[k as int]));
        assert(row_texts(rows@) =~= routes@.take(k + 1).map_values(|r: RouteInfo| route_row(r)));
        k = k + 1;
    }
    assert(routes@.take(routes.len() as int) =~= routes@);
    rows
}

/// The header row of the peer table.
pub open spec fn peer_header() -> Seq<Seq<char>> {
    seq!["IPv4"@, "主机名"@, "状态"@, "延迟"@, "接收"@, "发送"@]
}

/// The header row of the route table.
pub open spec fn route_header() -> Seq<Seq<char>> {
    seq!["目标"@, "网关"@, "接口"@, "Metric"@]
}

fn peer_header_cells() -> (r: Vec<String>)
    ensures
        texts(r@) == peer_header(),
{
    let mut r: Vec<String> = Vec::new();
    r.push(owned("IPv4"));
    r.push(owned("主机名"));
    r.push(owned("状态"));
    r.push(owned("延迟"));
    r.push(owned("接收"));
    r.push(owned("发送"));
    assert(texts(r@) =~= peer_header());
    r
}

fn route_header_cells() -> (r: Vec<String>)
    ensures
        texts(r@) == route_header(),
{
    let mut r: Vec<String> = Vec::new();
    r.push(owned("目标"));
    r.push(owned("网关"));
    r.push(owned("接口"));
    r.push(owned("Metric"));
    assert(texts(r@) =~= route_header());
    r
}

/// The header line at the top of every page.
pub open spec fn header_text(version: Seq<char>) -> Seq<char> {
    " EasyTier TUI v"@ + version + " | 方向键选择, Enter确认, Esc返回, q退出 "@
}

impl AppState {
    /// The header line at the top of every page.
    pub fn header_line(&self) -> (r: String)
        ensures
            r@ == header_text(self.app_version@),
    {
        let mut r = joined(" EasyTier TUI v", self.app_version.as_str());
        r.append(" | 方向键选择, Enter确认, Esc返回, q退出 ");
        r
    }

    /// The title of the frame around the current page.
    pub fn page_title(&self) -> (r: &'static str)
        ensures
            r@ == title_text(self.current_page),
    {
        match self.current_page {
            MenuPage::Main => " 主菜单 ",
            MenuPage::Install => " 安装 EasyTier ",
            MenuPage::Deploy => " 部署网络 ",
            MenuPage::JoinNetwork => " 加入网络 ",
            MenuPage::TokenJoin => " Token 加入 ",
            MenuPage::ServiceManage => " 服务管理 ",
            MenuPage::PeerList => " 节点列表 ",
            MenuPage::NodeInfo => " 节点信息 ",
            MenuPage::RouteList => " 路由列表 ",
            MenuPage::BandwidthStats => " 带宽统计 ",
            MenuPage::VpnPortal => " VPN Portal ",
            MenuPage::Diagnostics => " 网络诊断 (JSON) ",
            MenuPage::ConfigFile => " 配置文件 ",
            MenuPage::Notes => " 笔记/FAQ ",
            MenuPage::About => " 关于 ",
            MenuPage::Input => " 输入 ",
        }
    }

    /// The body of the current page.
    pub fn page_body(&self) -> (b: Body)
        ensures
            body_text(b) == page_text(*self),
    {
        match self.current_page {
            MenuPage::Main => Body::Menu,
            MenuPage::Install => {
                let mut t = joined("【安装/更新 EasyTier】\n\n安装路径: ", self.install_path.as_str());
                t.append("\n\n操作说明:\ni - 开始安装/更新\nb - 返回\n\n提示: 将从 GitHub 下载最新版本");
                Body::Text { text: t, tone: Tone::Plain }
            },
            MenuPage::Deploy => Body::Text { text: owned("【部署新网络】"), tone: Tone::Plain },
            MenuPage::JoinNetwork => Body::Text { text: owned("【加入现有网络】"), tone: Tone::Plain },
            MenuPage::TokenJoin => Body::Text { text: owned("【Token 加入网络】"), tone: Tone::Plain },
            MenuPage::ServiceManage => {
                let state = if self.service_running {
                    "[运行中] 🟢"
                } else {
                    "[未运行] 🔴"
                };
                let mut t = joined("【服务管理】\n\n服务状态: ", state);
                t.append("\n\n操作说明:\ns - 启动服务\nx - 停止服务\nr - 刷新状态\nb - 返回\n");
                Body::Text { text: t, tone: Tone::Plain }
            },
            MenuPage::PeerList => {
                if self.peers.len() == 0 {
                    Body::Text {
                        text: owned("无节点信息 (请确保 easytier-core 已运行)\n\n提示: r 刷新, b 返回"),
                        tone: Tone::Warning,
                    }
                } else {
                    let header = peer_header_cells();
                    let rows = peer_table(&self.peers);
                    Body::Table { header, rows }
                }
            },
            MenuPage::NodeInfo => {
                let t = match &self.node_info {
                    Some(n) => describe_node(n),
                    None => owned("无节点信息\n\n提示: r 刷新, b 返回"),
                };
                Body::Text { text: t, tone: Tone::Plain }
            },
            MenuPage::RouteList => {
                if self.routes.len() == 0 {
                    Body::Text { text: owned("无路由信息\n\n提示: r 刷新, b 返回"), tone: Tone::Warning }
                } else {
                    let header = route_header_cells();
                    let rows = route_table(&self.routes);
                    Body::Table { header, rows }
                }
            },
            MenuPage::BandwidthStats => {
                let t = match &self.stats {
                    Some(g) => describe_stats(g),
                    None => owned("无统计信息\n\n提示: r 刷新, b 返回"),
                };
                Body::Text { text: t, tone: Tone::Plain }
            },
            MenuPage::VpnPortal => Body::Text { text: self.config_content.clone(), tone: Tone::Plain },
            MenuPage::Diagnostics => Body::Text {
                text: self.diagnostics_json.clone(),
                tone: Tone::Plain,
            },
            MenuPage::ConfigFile => Body::Text { text: self.config_content.clone(), tone: Tone::Plain },
            MenuPage::Notes => Body::Text { text: self.notes_content.clone(), tone: Tone::Plain },
            MenuPage::About => {
                let mut t = joined(" EasyTier TUI v", self.app_version.as_str());
                t.append("\n\n基于 Rust + Ratatui 开发\n用于管理 EasyTier 网络\n\n功能:\n- 安装/更新 EasyTier\n- 部署/加入网络\n- 服务管理\n- 节点/路由监控\n- 网络诊断\n- 配置文件管理\n- 笔记功能\n\n按 b 返回");
                Body::Text { text: t, tone: Tone::Plain }
            },
            MenuPage::Input => {
                let prompt = match self.input_mode {
                    InputMode::NetworkName => "输入网络名称 (留空自动生成)",
                    InputMode::NetworkSecret => "输入网络密钥",
                    InputMode::Token => "输入 Token (easytier://...)",
                    _ => "输入",
                };
                let mut t = joined(prompt, "\n\n当前输入: ");
                t.append(self.input_value.as_str());
                t.append("\n\nEnter 确认, Esc 取消");
                Body::Text { text: t, tone: Tone::Plain }
            },
        }
    }
}

} // verus!
