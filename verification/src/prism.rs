//! The settings of the service that publishes a snapshot, and the words with
//! which it announces itself.

use crate::text::{decimal, decimal_string, opt_text};
use vstd::prelude::*;
use vstd::string::*;

verus! {

/// The settings of the service.
#[derive(Debug)]
pub struct PrismConfig {
    pub project_name: String,
    pub version: String,
    pub description: Option<String>,
    pub static_assets_path: Option<String>,
    pub host: String,
    pub port: u16,
}

/// The settings as a mathematical value.
pub struct PrismConfigModel {
    pub project_name: Seq<char>,
    pub version: Seq<char>,
    pub description: Option<Seq<char>>,
    pub static_assets_path: Option<Seq<char>>,
    pub host: Seq<char>,
    pub port: u16,
}

impl View for PrismConfig {
    type V = PrismConfigModel;

    open spec fn view(&self) -> PrismConfigModel {
        PrismConfigModel {
            project_name: self.project_name@,
            version: self.version@,
            description: opt_text(self.description),
            static_assets_path: opt_text(self.static_assets_path),
            host: self.host@,
            port: self.port,
        }
    }
}

/// How loudly a line of the announcement is logged.
#[derive(Debug, Clone, Copy, PartialEq, Eq, Structural)]
pub enum LineLevel {
    Info,
    Debug,
}

/// One line of the announcement.
#[derive(Debug)]
pub struct WelcomeLine {
    pub level: LineLevel,
    pub text: String,
}

/// A line of the announcement as a mathematical value.
pub struct WelcomeLineModel {
    pub level: LineLevel,
    pub text: Seq<char>,
}

impl View for WelcomeLine {
    type V = WelcomeLineModel;

    open spec fn view(&self) -> WelcomeLineModel {
        WelcomeLineModel { level: self.level, text: self.text@ }
    }
}

/// The models of the lines, in order.
pub open spec fn line_models(lines: Seq<WelcomeLine>) -> Seq<WelcomeLineModel> {
    lines.map_values(|line: WelcomeLine| line@)
}

/// The rule that frames the announcement.
pub open spec fn rule() -> Seq<char> {
    "==========================================="@
}

/// A line that is logged as information.
pub open spec fn info(text: Seq<char>) -> WelcomeLineModel {
    WelcomeLineModel { level: LineLevel::Info, text }
}

/// The address under which the service is reached.
pub open spec fn address_of(host: Seq<char>, port: u16) -> Seq<char> {
    "http://"@ + host + ":"@ + decimal(port as nat)
}

impl PrismConfigModel {
    /// The settings that are used when nothing else is asked for.
    pub open spec fn standard(version: Seq<char>) -> PrismConfigModel {
        PrismConfigModel {
            project_name: "Prism API"@,
            version,
            description: None,
            static_assets_path: None,
            host: "localhost"@,
            port: 8080,
        }
    }

    /// The host and port as a socket address is written.
    pub open spec fn bind_text(self) -> Seq<char> {
        self.host + ":"@ + decimal(self.port as nat)
    }

    /// The announcement: the name and version between two rules, the
    /// description where there is one, then where to find the documentation,
    /// the service and its health report, and a closing rule.
    pub open spec fn welcome(self, host: Seq<char>, port: u16) -> Seq<WelcomeLineModel> {
        let title = seq![
            info(rule()),
            info("\u{1F680} "@ + self.project_name + " v"@ + self.version),
        ];
        let described = match self.description {
            Some(text) => title.push(WelcomeLineModel { level: LineLevel::Debug, text }),
            None => title,
        };
        let address = address_of(host, port);
        described + seq![
            info(rule()),
            info("\u{1F4DA} API documentation: "@ + address + "/docs"@),
            info("\u{1F4E1} Server running at: "@ + address),
            info("\u{1F3E5} Health status: "@ + address + "/health"@),
            info(rule()),
        ]
    }
}

/// A line that is logged as information.
fn info_line(text: String) -> (line: WelcomeLine)
    ensures
        line@ == info(text@),
{
    WelcomeLine { level: LineLevel::Info, text }
}

impl PrismConfig {
    /// Settings with the given values.
    pub fn new(
        project_name: String,
        version: String,
        description: Option<String>,
        static_assets_path: Option<String>,
        host: String,
        port: u16,
    ) -> (r: Self)
        ensures
            r@ == (PrismConfigModel {
                project_name: project_name@,
                version: version@,
                description: opt_text(description),
                static_assets_path: opt_text(static_assets_path),
                host: host@,
                port,
            }),
    {
        PrismConfig { project_name, version, description, static_assets_path, host, port }
    }

    /// The settings that are used when nothing else is asked for, for a
    /// service of the given version.
    pub fn standard(version: String) -> (r: Self)
        ensures
            r@ == PrismConfigModel::standard(version@),
    {
        PrismConfig {
            project_name: String::from_str("Prism API"),
            version,
            description: None,
            static_assets_path: None,
            host: String::from_str("localhost"),
            port: 8080,
        }
    }

    /// The host and port as a socket address is written.
    pub fn bind_address(&self) -> (s: String)
        ensures
            s@ == self@.bind_text(),
    {
        let mut s = self.host.clone();
        s.append(":");
        let digits = decimal_string(self.port as u64);
        s.append(digits.as_str());
        s
    }

    /// The lines with which the service announces itself at `host` and `port`.
    pub fn welcome_lines(&self, host: &str, port: u16) -> (lines: Vec<WelcomeLine>)
        ensures
            line_models(lines@) == self@.welcome(host@, port),
    {
        let mut address = String::from_str("http://");
        address.append(host);
        address.append(":");
        let digits = decimal_string(port as u64);
        address.append(digits.as_str());

        let mut title = String::from_str("\u{1F680} ");
        title.append(self.project_name.as_str());
        title.append(" v");
        title.append(self.version.as_str());

        let mut docs = String::from_str("\u{1F4DA} API documentation: ");
        docs.append(address.as_str());
        docs.append("/docs");

        let mut running = String::from_str("\u{1F4E1} Server running at: ");
        running.append(address.as_str());

        let mut health = String::from_str("\u{1F3E5} Health status: ");
        health.append(address.as_str());
        health.append("/health");

        let mut lines: Vec<WelcomeLine> = Vec::new();
        lines.push(info_line(String::from_str("===========================================")));
        lines.push(info_line(title));
        match &self.description {
            Some(text) => {
                lines.push(WelcomeLine { level: LineLevel::Debug, text: text.clone() });
            },
            None => {},
        }
        lines.push(info_line(String::from_str("===========================================")));
        lines.push(info_line(docs));
        lines.push(info_line(running));
        lines.push(info_line(health));
        lines.push(info_line(String::from_str("===========================================")));
        assert(line_models(lines@) =~= self@.welcome(host@, port));
        lines
    }
}

} // verus!
