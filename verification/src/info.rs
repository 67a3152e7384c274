//! The banner that the server prints when it starts: build information,
//! the settings in debug mode, and where the server and its API
//! documentation are.

use vstd::prelude::*;
use vstd::string::StringExecFns;

use crate::codec::{decimal_digits, u64_to_text};
use crate::migration::occurs_at;
use crate::settings::{spec_indented_json, Settings};

verus! {

/// Facts about the build of the server.
#[derive(Debug)]
pub struct BuildInfo {
    /// The package name.
    pub name: String,
    /// The package authors.
    pub authors: String,
    /// The package version.
    pub version: String,
    /// The git branch, empty when unknown.
    pub branch: String,
    /// The short git commit hash, empty when unknown.
    pub commit: String,
    /// The compiler version.
    pub rustc_version: String,
    /// The target operating system.
    pub os: String,
    /// The target family.
    pub family: String,
    /// The target triple.
    pub target: String,
    /// The target endianness.
    pub endian: String,
    /// The build profile.
    pub profile: String,
}

/// The startup banner.
#[derive(Debug)]
pub struct Info;

/// The address of the server on the local machine.
pub open spec fn spec_server_url(port: u16) -> Seq<char> {
    "http://localhost:"@ + decimal_digits(port as nat)
}

impl Info {
    /// The banner: the title, the build information, in debug mode the
    /// settings, then the server's address and the addresses of the API
    /// documentation and definition; one item per line.
    pub open spec fn spec_render(
        banner: Seq<char>,
        build: BuildInfo,
        settings: Settings,
        settings_json: Seq<char>,
    ) -> Seq<char> {
        let url = spec_server_url(settings.server_port);
        let head = banner + "\n"@ + "Built info:\n"@ + "    Name:    "@ + build.name@ + "\n"@ + "    Authors: "@ + build.authors@ + "\n"@ + "    Version: "@ + build.version@ + "\n"@ + "    Branch:  "@ + build.branch@ + "\n"@ + "    Commit:  "@ + build.commit@ + "\n"@ + "    Build:   "@ + build.rustc_version@ + "\n"@ + "    OS:      "@ + build.os@ + "\n"@ + "    Family:  "@ + build.family@ + "\n"@ + "    Arch:    "@ + build.target@ + "\n"@ + "    Endian:  "@ + build.endian@ + "\n"@ + "    Profile: "@ + build.profile@ + "\n"@;
        let configs = if settings.debug == Some(true) {
            "    Configs: "@ + spec_indented_json(settings_json, 4) + "\n"@
        } else {
            Seq::empty()
        };
        head + configs + "    Server:  "@ + url + "\n"@ + "    Api doc: "@ + url + "/docs"@ + "\n"@
            + "    Api def: "@ + url + "/openapi.json"@ + "\n"@
    }

    /// Renders the banner; `banner` is the title art and `settings_json`
    /// the settings as pretty JSON.
    pub fn render(&self, banner: &str, build: &BuildInfo, settings: &Settings, settings_json: &str) -> (res: String)
        ensures
            res@ == Self::spec_render(banner@, *build, *settings, settings_json@),
    {
        let debug = match settings.debug {
            Some(d) => d,
            None => false,
        };
        let port = u64_to_text(settings.server_port as u64);
        let mut url = String::new();
        url.append("http://localhost:");
        url.append(port.as_str());
        let mut res = String::new();
        res.append(banner);
        res.append("\n");
        res.append("Built info:\n");
        res.append("    Name:    ");
        res.append(build.name.as_str());
        res.append("\n");
        res.append("    Authors: ");
        res.append(build.authors.as_str());
        res.append("\n");
        res.append("    Version: ");
        res.append(build.version.as_str());
        res.append("\n");
        res.append("    Branch:  ");
        res.append(build.branch.as_str());
        res.append("\n");
        res.append("    Commit:  ");
        res.append(build.commit.as_str());
        res.append("\n");
        res.append("    Build:   ");
        res.append(build.rustc_version.as_str());
        res.append("\n");
        res.append("    OS:      ");
        res.append(build.os.as_str());
        res.append("\n");
        res.append("    Family:  ");
        res.append(build.family.as_str());
        res.append("\n");
        res.append("    Arch:    ");
        res.append(build.target.as_str());
        res.append("\n");
        res.append("    Endian:  ");
        res.append(build.endian.as_str());
        res.append("\n");
        res.append("    Profile: ");
        res.append(build.profile.as_str());
        res.append("\n");
        if debug {
            let configs = Settings::json_pretty(settings_json, 4);
            res.append("    Configs: ");
            res.append(configs.as_str());
            res.append("\n");
        }
        res.append("    Server:  ");
        res.append(url.as_str());
        res.append("\n");
        res.append("    Api doc: ");
        res.append(url.as_str());
        res.append("/docs");
        res.append("\n");
        res.append("    Api def: ");
        res.append(url.as_str());
        res.append("/openapi.json");
        res.append("\n");
        res
    }
}

} // verus!

verus! {

/// The line of the banner that shows the settings.
pub open spec fn configs_line(settings_json: Seq<char>) -> Seq<char> {
    "    Configs: "@ + spec_indented_json(settings_json, 4) + "\n"@
}

/// The settings are shown only in debug mode: unless `debug` is
/// `Some(true)`, the banner does not depend on the settings' JSON at all, and
/// `debug` being `Some(false)` or absent makes no difference.
pub proof fn law_settings_hidden_unless_debug(
    banner: Seq<char>,
    build: BuildInfo,
    settings: Settings,
    other: Settings,
    settings_json: Seq<char>,
    other_json: Seq<char>,
)
    requires
        settings.debug != Some(true),
        other.debug != Some(true),
        other.database_url == settings.database_url,
        other.server_port == settings.server_port,
        other.private_key == settings.private_key,
        other.public_key == settings.public_key,
        other.upload_dir == settings.upload_dir,
    ensures
        Info::spec_render(banner, build, settings, settings_json) == Info::spec_render(
            banner,
            build,
            other,
            other_json,
        ),
{
}

/// In debug mode the banner shows the settings: it holds the `Configs` line
/// with the settings' JSON indented under it.
pub proof fn law_settings_shown_in_debug(
    banner: Seq<char>,
    build: BuildInfo,
    settings: Settings,
    settings_json: Seq<char>,
)
    requires
        settings.debug == Some(true),
    ensures
        exists|i: int| #[trigger]
            occurs_at(
                Info::spec_render(banner, build, settings, settings_json),
                configs_line(settings_json),
                i,
            ),
{
    let text = Info::spec_render(banner, build, settings, settings_json);
    let line = configs_line(settings_json);
    let url = spec_server_url(settings.server_port);
    let head = banner + "\n"@ + "Built info:\n"@ + "    Name:    "@ + build.name@ + "\n"@ + "    Authors: "@ + build.authors@ + "\n"@ + "    Version: "@ + build.version@ + "\n"@ + "    Branch:  "@ + build.branch@ + "\n"@ + "    Commit:  "@ + build.commit@ + "\n"@ + "    Build:   "@ + build.rustc_version@ + "\n"@ + "    OS:      "@ + build.os@ + "\n"@ + "    Family:  "@ + build.family@ + "\n"@ + "    Arch:    "@ + build.target@ + "\n"@ + "    Endian:  "@ + build.endian@ + "\n"@ + "    Profile: "@ + build.profile@ + "\n"@;
    let tail = "    Server:  "@ + url + "\n"@ + "    Api doc: "@ + url + "/docs"@ + "\n"@ + "    Api def: "@ + url + "/openapi.json"@ + "\n"@;
    assert(text =~= head + line + tail);
    let i: int = head.len() as int;
    assert(text.subrange(i, i + line.len() as int) =~= line);
    assert(occurs_at(text, line, i));
}

} // verus!
