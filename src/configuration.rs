use crate::monitors::Monitor;
use crate::text::{starts_with, text_starts_with};
use vstd::prelude::*;

verus! {

pub const DEFAULT_DATA_PATH: &'static str = "release-monitor.sqlite";
pub const PICO_CSS_CDN_BASE: &'static str = "https://cdn.jsdelivr.net/npm/@picocss/pico@2/css/";
pub const SQLITE_MEMORY: &'static str = "sqlite::memory:";

/// The colour themes of the Pico CSS classless stylesheet.
#[derive(Debug, Clone, Copy, PartialEq, Eq, Structural)]
pub enum PicoCssColour {
    Amber,
    Blue,
    Cyan,
    Fuchsia,
    Green,
    Grey,
    Indigo,
    Jade,
    Lime,
    Orange,
    Pink,
    Pumpkin,
    Purple,
    Red,
    Sand,
    Slate,
    Violet,
    Yellow,
    Zinc,
}

impl PicoCssColour {
    /// The lower-case name of the colour.
    pub open spec fn name_spec(self) -> Seq<char> {
        match self {
            PicoCssColour::Amber => "amber"@,
            PicoCssColour::Blue => "blue"@,
            PicoCssColour::Cyan => "cyan"@,
            PicoCssColour::Fuchsia => "fuchsia"@,
            PicoCssColour::Green => "green"@,
            PicoCssColour::Grey => "grey"@,
            PicoCssColour::Indigo => "indigo"@,
            PicoCssColour::Jade => "jade"@,
            PicoCssColour::Lime => "lime"@,
            PicoCssColour::Orange => "orange"@,
            PicoCssColour::Pink => "pink"@,
            PicoCssColour::Pumpkin => "pumpkin"@,
            PicoCssColour::Purple => "purple"@,
            PicoCssColour::Red => "red"@,
            PicoCssColour::Sand => "sand"@,
            PicoCssColour::Slate => "slate"@,
            PicoCssColour::Violet => "violet"@,
            PicoCssColour::Yellow => "yellow"@,
            PicoCssColour::Zinc => "zinc"@,
        }
    }

    /// The lower-case name of the colour, as it appears in stylesheet names.
    pub fn as_str(&self) -> (r: &'static str)
        ensures
            r@ == self.name_spec(),
    {
        match self {
            PicoCssColour::Amber => "amber",
            PicoCssColour::Blue => "blue",
            PicoCssColour::Cyan => "cyan",
            PicoCssColour::Fuchsia => "fuchsia",
            PicoCssColour::Green => "green",
            PicoCssColour::Grey => "grey",
            PicoCssColour::Indigo => "indigo",
            PicoCssColour::Jade => "jade",
            PicoCssColour::Lime => "lime",
            PicoCssColour::Orange => "orange",
            PicoCssColour::Pink => "pink",
            PicoCssColour::Pumpkin => "pumpkin",
            PicoCssColour::Purple => "purple",
            PicoCssColour::Red => "red",
            PicoCssColour::Sand => "sand",
            PicoCssColour::Slate => "slate",
            PicoCssColour::Violet => "violet",
            PicoCssColour::Yellow => "yellow",
            PicoCssColour::Zinc => "zinc",
        }
    }

    pub open spec fn css_name_spec(self) -> Seq<char> {
        "pico.classless."@ + self.name_spec() + ".min.css"@
    }

    /// The file name of the minified classless stylesheet in this colour.
    pub fn get_pico_css_name(&self) -> (r: String)
        ensures
            r@ == self.css_name_spec(),
    {
        let mut name = String::from_str("pico.classless.");
        name.append(self.as_str());
        name.append(".min.css");
        name
    }
}

/// The stylesheet path: the base path followed by the stylesheet name of `colour`.
pub fn get_css_path(path: String, colour: PicoCssColour) -> (r: String)
    ensures
        r@ == path@ + colour.css_name_spec(),
{
    let name = colour.get_pico_css_name();
    let mut css = path;
    css.append(name.as_str());
    css
}

/// A stylesheet base path that is a web address is linked to; any other is a
/// local directory that the web interface serves itself.
pub open spec fn is_web_address(path: Seq<char>) -> bool {
    starts_with(path, "http://"@) || starts_with(path, "https://"@)
}

/// The local directory to serve stylesheets from, where the base path is not a web address.
pub fn local_css_dir(base_path: &String) -> (r: Option<String>)
    ensures
        is_web_address(base_path@) ==> r is None,
        !is_web_address(base_path@) ==> r == Some(*base_path),
{
    if text_starts_with(base_path.as_str(), "http://") || text_starts_with(
        base_path.as_str(),
        "https://",
    ) {
        None
    } else {
        Some(base_path.clone())
    }
}

/// Settings that apply to every monitor and to storage.
#[derive(Debug, Clone)]
pub struct GlobalConfiguration {
    /// Keep the version store in a file; otherwise it lives in memory only.
    pub persist: bool,
    pub db_path: String,
    /// Token for authenticated GitHub lookups, used where a monitor has none.
    pub github_personal_token: Option<String>,
}

impl Default for GlobalConfiguration {
    fn default() -> (r: Self)
        ensures
            r.persist,
            r.db_path@ == DEFAULT_DATA_PATH@,
            r.github_personal_token is None,
    {
        GlobalConfiguration {
            persist: true,
            db_path: String::from_str(DEFAULT_DATA_PATH),
            github_personal_token: None,
        }
    }
}

impl GlobalConfiguration {
    pub open spec fn db_uri_spec(self) -> Seq<char> {
        "sqlite://"@ + self.db_path@ + "?mode=rwc"@
    }

    /// The SQLite connection string for the configured database file.
    pub fn db_uri(&self) -> (r: String)
        ensures
            r@ == self.db_uri_spec(),
    {
        let mut uri = String::from_str("sqlite://");
        uri.append(self.db_path.as_str());
        uri.append("?mode=rwc");
        uri
    }

    /// The connection string to open: the database file when persisting,
    /// an in-memory database otherwise.
    pub fn connection_uri(&self) -> (r: String)
        ensures
            self.persist ==> r@ == self.db_uri_spec(),
            !self.persist ==> r@ == SQLITE_MEMORY@,
    {
        if self.persist {
            self.db_uri()
        } else {
            String::from_str(SQLITE_MEMORY)
        }
    }
}

/// Settings of the administrative web interface.
#[derive(Debug, Clone)]
pub struct WebUiConfiguration {
    pub port: u16,
    pub listen_address: String,
    pub pico_css_base_path: String,
    pub pico_css_color: PicoCssColour,
}

impl Default for WebUiConfiguration {
    fn default() -> (r: Self)
        ensures
            r.port == 8080,
            r.listen_address@ == "0.0.0.0"@,
            r.pico_css_base_path@ == PICO_CSS_CDN_BASE@,
            r.pico_css_color == PicoCssColour::Indigo,
    {
        WebUiConfiguration {
            port: 8080,
            listen_address: String::from_str("0.0.0.0"),
            pico_css_base_path: String::from_str(PICO_CSS_CDN_BASE),
            pico_css_color: PicoCssColour::Indigo,
        }
    }
}

/// The monitors named in the configuration file.
#[derive(Debug)]
pub struct MonitorConfiguration {
    pub monitor: Vec<Monitor>,
}

} // verus!
