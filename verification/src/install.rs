//! Installing or updating the EasyTier binaries: which release archive fits
//! the machine, what the release feed says the latest version is, and what the
//! interface reports at each step.

use vstd::prelude::*;
use crate::state::{joined, owned, AppState};

verus! {

/// The operating systems the release archives distinguish.
#[derive(Debug, Clone, Copy, PartialEq, Eq, Structural)]
pub enum Os {
    Macos,
    Linux,
    Other,
}

/// The processor architectures the release archives distinguish.
#[derive(Debug, Clone, Copy, PartialEq, Eq, Structural)]
pub enum Arch {
    Aarch64,
    X86_64,
    Other,
}

/// The platforms release archives are published for.
#[derive(Debug, Clone, Copy, PartialEq, Eq, Structural)]
pub enum Platform {
    MacosAarch64,
    MacosX86_64,
    LinuxX86_64,
    LinuxAarch64,
    WindowsX86_64,
}

/// The archive to fetch for a machine: macOS on ARM or else Intel; Linux on
/// ARM, else x86-64; anything else gets the Windows build.
pub open spec fn spec_platform_for(os: Os, arch: Arch) -> Platform {
    match os {
        Os::Macos => if arch == Arch::Aarch64 {
            Platform::MacosAarch64
        } else {
            Platform::MacosX86_64
        },
        Os::Linux => if arch == Arch::Aarch64 {
            Platform::LinuxAarch64
        } else {
            Platform::LinuxX86_64
        },
        Os::Other => Platform::WindowsX86_64,
    }
}

/// The platform's name in release archive names.
pub open spec fn platform_text(p: Platform) -> Seq<char> {
    match p {
        Platform::MacosAarch64 => "macos-aarch64"@,
        Platform::MacosX86_64 => "macos-x86_64"@,
        Platform::LinuxX86_64 => "linux-x86_64"@,
        Platform::LinuxAarch64 => "linux-aarch64"@,
        Platform::WindowsX86_64 => "windows-x86_64"@,
    }
}

/// The release archive for a machine running `os` on `arch`.
pub fn platform_for(os: Os, arch: Arch) -> (p: Platform)
    ensures
        p == spec_platform_for(os, arch),
{
    match os {
        Os::Macos => {
            if arch == Arch::Aarch64 {
                Platform::MacosAarch64
            } else {
                Platform::MacosX86_64
            }
        },
        Os::Linux => {
            if arch == Arch::X86_64 {
                Platform::LinuxX86_64
            } else if arch == Arch::Aarch64 {
                Platform::LinuxAarch64
            } else {
                Platform::LinuxX86_64
            }
        },
        Os::Other => Platform::WindowsX86_64,
    }
}

impl Platform {
    /// The platform's name in release archive names.
    pub fn name(&self) -> (r: &'static str)
        ensures
            r@ == platform_text(*self),
    {
        match self {
            Platform::MacosAarch64 => "macos-aarch64",
            Platform::MacosX86_64 => "macos-x86_64",
            Platform::LinuxX86_64 => "linux-x86_64",
            Platform::LinuxAarch64 => "linux-aarch64",
            Platform::WindowsX86_64 => "windows-x86_64",
        }
    }
}

/// Why the latest version could not be learned.
#[derive(Debug, Clone)]
pub enum FetchError {
    /// The request to the release feed failed.
    Request(String),
    /// The feed's answer could not be read.
    Body(String),
    /// The feed's answer is not a JSON document.
    Parse(String),
}

/// The message for a failed version lookup.
pub open spec fn fetch_error_text(e: FetchError) -> Seq<char> {
    match e {
        FetchError::Request(d) => "请求失败: "@ + d@,
        FetchError::Body(d) => d@,
        FetchError::Parse(d) => "解析失败: "@ + d@,
    }
}

impl FetchError {
    /// The message for this failure.
    pub fn message(&self) -> (r: String)
        ensures
            r@ == fetch_error_text(*self),
    {
        match self {
            FetchError::Request(d) => joined("请求失败: ", d.as_str()),
            FetchError::Body(d) => d.clone(),
            FetchError::Parse(d) => joined("解析失败: ", d.as_str()),
        }
    }
}

/// Why downloading or unpacking a release failed.
#[derive(Debug, Clone)]
pub enum InstallError {
    NoHomeDir,
    CreateDir(String),
    Download(String),
    ReadBody(String),
    Save(String),
    OpenArchive(String),
    Unzip(String),
    ReadEntry(String),
    CreateFile(String),
    WriteFile(String),
    Permissions(String),
}

/// The message for a failed installation step.
pub open spec fn install_error_text(e: InstallError) -> Seq<char> {
    match e {
        InstallError::NoHomeDir => "无法获取用户目录"@,
        InstallError::CreateDir(d) => "创建目录失败: "@ + d@,
        InstallError::Download(d) => "下载失败: "@ + d@,
        InstallError::ReadBody(d) => "读取失败: "@ + d@,
        InstallError::Save(d) => "保存失败: "@ + d@,
        InstallError::OpenArchive(d) => "打开文件失败: "@ + d@,
        InstallError::Unzip(d) => "解压失败: "@ + d@,
        InstallError::ReadEntry(d) => "读取失败: "@ + d@,
        InstallError::CreateFile(d) => "创建文件失败: "@ + d@,
        InstallError::WriteFile(d) => "写入失败: "@ + d@,
        InstallError::Permissions(d) => d@,
    }
}

impl InstallError {
    /// The message for this failure.
    pub fn message(&self) -> (r: String)
        ensures
            r@ == install_error_text(*self),
    {
        match self {
            InstallError::NoHomeDir => owned("无法获取用户目录"),
            InstallError::CreateDir(d) => joined("创建目录失败: ", d.as_str()),
            InstallError::Download(d) => joined("下载失败: ", d.as_str()),
            InstallError::ReadBody(d) => joined("读取失败: ", d.as_str()),
            InstallError::Save(d) => joined("保存失败: ", d.as_str()),
            InstallError::OpenArchive(d) => joined("打开文件失败: ", d.as_str()),
            InstallError::Unzip(d) => joined("解压失败: ", d.as_str()),
            InstallError::ReadEntry(d) => joined("读取失败: ", d.as_str()),
            InstallError::CreateFile(d) => joined("创建文件失败: ", d.as_str()),
            InstallError::WriteFile(d) => joined("写入失败: ", d.as_str()),
            InstallError::Permissions(d) => d.clone(),
        }
    }
}

/// `s` without its leading `v` characters.
pub open spec fn strip_leading_v(s: Seq<char>) -> Seq<char>
    decreases s.len(),
{
    if s.len() > 0 && s[0] == 'v' {
        strip_leading_v(s.drop_first())
    } else {
        s
    }
}

/// `s` without its leading `v` characters (`v2.4.5` gives `2.4.5`).
pub fn trim_leading_v(s: &str) -> (r: String)
    ensures
        r@ == strip_leading_v(s@),
{
    let len = s.unicode_len();
    let mut k: usize = 0;
    assert(s@.skip(0) =~= s@);
    while k < len && s.get_char(k) == 'v'
        invariant
            len == s@.len(),
            k <= len,
            strip_leading_v(s@) == strip_leading_v(s@.skip(k as int)),
        decreases len - k,
    {
        assert(s@.skip(k as int).drop_first() =~= s@.skip(k + 1));
        k = k + 1;
    }
    let rest = s.substring_char(k, len);
    assert(rest@ =~= s@.skip(k as int));
    String::from_str(rest)
}

/// The version announced when the feed's answer has no `tag_name` string.
pub open spec fn fallback_version() -> Seq<char> {
    "2.4.5"@
}

/// The texts inside the outcome of a string-member lookup.
pub open spec fn member_view(r: Result<Option<String>, String>) -> Result<Option<Seq<char>>, Seq<char>> {
    match r {
        Ok(Some(s)) => Ok(Some(s@)),
        Ok(None) => Ok(None),
        Err(e) => Err(e@),
    }
}

/// The version a `tag_name` lookup announces: the tag without its leading
/// `v`s, `2.4.5` when the document has no such string, and a parse failure
/// (carrying the parser's message) when it is no JSON document.
pub fn release_version(member: Result<Option<String>, String>) -> (r: Result<String, FetchError>)
    ensures
        match member_view(member) {
            Ok(Some(tag)) => r matches Ok(v) && v@ == strip_leading_v(tag),
            Ok(None) => r matches Ok(v) && v@ == fallback_version(),
            Err(e) => r matches Err(FetchError::Parse(d)) && d@ == e,
        },
{
    match member {
        Ok(Some(tag)) => Ok(trim_leading_v(tag.as_str())),
        Ok(None) => {
            let fallback = "v2.4.5";
            proof {
                reveal_strlit("v2.4.5");
                reveal_strlit("2.4.5");
            }
            let v = trim_leading_v(fallback);
            proof {
                assert(fallback@.drop_first() =~= "2.4.5"@);
                assert(strip_leading_v("2.4.5"@) == "2.4.5"@);
            }
            Ok(v)
        },
        Err(e) => Err(FetchError::Parse(e)),
    }
}

/// What `serde_json` makes of `text` when asked for the string member `key` of
/// the top-level object: an error message when `text` is no JSON document,
/// `None` when the document is not an object, has no member `key`, or that
/// member is not a string, and the member's text otherwise.
pub uninterp spec fn json_string_member(text: Seq<char>, key: Seq<char>) -> Result<Option<Seq<char>>, Seq<char>>;

/// Parses `text` with `serde_json::from_str` into a `serde_json::Value` and
/// reads its member `key` as a string (`Value::get`, `Value::as_str`); a parse
/// failure comes back as the error's display text. The contract claims no
/// more than that the outcome is determined by `text` and `key`
/// (`json_string_member`); what JSON parsing accepts is not stated.
#[verifier::external_body]
fn parse_json_string_member(text: &str, key: &str) -> (r: Result<Option<String>, String>)
    ensures
        member_view(r) == json_string_member(text@, key@),
{
    match serde_json::from_str::<serde_json::Value>(text) {
        Ok(v) => Ok(v.get(key).and_then(serde_json::Value::as_str).map(str::to_string)),
        Err(e) => Err(e.to_string()),
    }
}

/// The latest version announced by the release feed's answer `body`: its
/// `tag_name` without leading `v`s, `2.4.5` when there is no such string, or
/// a parse failure when `body` is no JSON document.
pub fn parse_release_version(body: &str) -> (r: Result<String, FetchError>)
    ensures
        match json_string_member(body@, "tag_name"@) {
            Ok(Some(tag)) => r matches Ok(v) && v@ == strip_leading_v(tag),
            Ok(None) => r matches Ok(v) && v@ == fallback_version(),
            Err(e) => r matches Err(FetchError::Parse(d)) && d@ == e,
        },
{
    release_version(parse_json_string_member(body, "tag_name"))
}

/// Whether an archive entry named `name` is a directory (its name ends in `/`).
pub fn entry_is_dir(name: &str) -> (b: bool)
    ensures
        b == (name@.len() > 0 && name@.last() == '/'),
{
    let len = name.unicode_len();
    len > 0 && name.get_char(len - 1) == '/'
}

/// The release archive to download.
pub struct InstallPlan {
    pub platform: Platform,
    pub version: String,
    pub filename: String,
    pub url: String,
}

/// The name of the release archive of `version` for `platform`.
pub open spec fn archive_name(platform: Platform, version: Seq<char>) -> Seq<char> {
    "easytier-"@ + platform_text(platform) + "-v"@ + version + ".zip"@
}

/// Where the release archive of `version` named `filename` is published.
pub open spec fn archive_url(version: Seq<char>, filename: Seq<char>) -> Seq<char> {
    "https://github.com/EasyTier/EasyTier/releases/download/v"@ + version + "/"@ + filename
}

/// The stages of an installation that the status line reports.
#[derive(Debug, Clone, Copy, PartialEq, Eq, Structural)]
pub enum InstallPhase {
    Downloading,
    Extracting,
}

impl AppState {
    /// Announces that the latest version is being looked up.
    pub fn begin_install(&mut self)
        ensures
            *final(self) == (AppState { status_message: final(self).status_message, ..*old(self) }),
            final(self).status_message@ == "正在获取最新版本..."@,
    {
        self.status_message = owned("正在获取最新版本...");
    }

    /// Given the version lookup's outcome, reports it and names the archive to
    /// download for `platform` (`None` when the lookup failed).
    pub fn install_easytier(&mut self, platform: Platform, fetched: Result<String, FetchError>) -> (plan: Option<InstallPlan>)
        ensures
            *final(self) == (AppState { status_message: final(self).status_message, ..*old(self) }),
            match fetched {
                Ok(v) => {
                    &&& final(self).status_message@ == "准备下载 v"@ + v@ + " ..."@
                    &&& plan matches Some(p) && p.platform == platform && p.version@ == v@
                        && p.filename@ == archive_name(platform, v@)
                        && p.url@ == archive_url(v@, p.filename@)
                },
                Err(e) => {
                    &&& final(self).status_message@ == "获取版本失败: "@ + fetch_error_text(e)
                    &&& plan is None
                },
            },
    {
        match fetched {
            Err(e) => {
                let m = e.message();
                self.status_message = joined("获取版本失败: ", m.as_str());
                None
            },
            Ok(version) => {
                let mut status = joined("准备下载 v", version.as_str());
                status.append(" ...");
                self.status_message = status;
                let mut filename = joined("easytier-", platform.name());
                filename.append("-v");
                filename.append(version.as_str());
                filename.append(".zip");
                let mut url = joined(
                    "https://github.com/EasyTier/EasyTier/releases/download/v",
                    version.as_str(),
                );
                url.append("/");
                url.append(filename.as_str());
                Some(InstallPlan { platform, version, filename, url })
            },
        }
    }

    /// Announces the installation stage under way.
    pub fn note_install_phase(&mut self, phase: InstallPhase)
        ensures
            *final(self) == (AppState { status_message: final(self).status_message, ..*old(self) }),
            final(self).status_message@ == match phase {
                InstallPhase::Downloading => "正在下载..."@,
                InstallPhase::Extracting => "正在解压..."@,
            },
    {
        self.status_message = match phase {
            InstallPhase::Downloading => owned("正在下载..."),
            InstallPhase::Extracting => owned("正在解压..."),
        };
    }

    /// Records how the download and unpacking ended: on success the binaries
    /// now live in `dir`.
    pub fn finish_install(&mut self, outcome: Result<String, InstallError>)
        ensures
            *final(self) == (AppState {
                install_path: final(self).install_path,
                status_message: final(self).status_message,
                ..*old(self)
            }),
            match outcome {
                Ok(dir) => final(self).install_path == dir && final(self).status_message@
                    == "安装成功！"@,
                Err(e) => final(self).install_path == old(self).install_path
                    && final(self).status_message@ == "安装失败: "@ + install_error_text(e),
            },
    {
        match outcome {
            Ok(dir) => {
                self.install_path = dir;
                self.status_message = owned("安装成功！");
            },
            Err(e) => {
                let m = e.message();
                self.status_message = joined("安装失败: ", m.as_str());
            },
        }
    }
}

} // verus!
