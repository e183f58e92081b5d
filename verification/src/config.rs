//! The settings of an application, and what the framework decides from them.

use crate::html::markup::opt_view;
use crate::page::TextDirection;
use crate::text::{chars_of, string_of};
use vstd::prelude::*;

verus! {

/// `s` in lower case, as Unicode has it.
pub uninterp spec fn lowercase(s: Seq<char>) -> Seq<char>;

/// Calls `str::to_lowercase`. Trusted: the result is the lower case form of
/// the text, which this crate only names.
#[verifier::external_body]
pub(crate) fn to_lowercase(s: &str) -> (r: String)
    ensures
        r@ == lowercase(s@),
{
    s.to_lowercase()
}

/// Whether `s` is the text `t`.
pub fn is_text(s: &str, t: &str) -> (b: bool)
    ensures
        b == (s@ == t@),
{
    s.to_owned() == t.to_owned()
}

/// The settings of the section `[app]`.
pub struct App {
    pub name: String,
    pub description: String,
    pub theme: String,
    pub language: String,
    pub direction: String,
    pub startup_banner: String,
    pub run_mode: String,
}

/// The settings of the section `[database]`.
pub struct Database {
    pub db_type: String,
    pub db_name: String,
    pub db_user: String,
    pub db_pass: String,
    pub db_host: String,
    pub db_port: u16,
    pub max_pool_size: u32,
}

/// The settings of the section `[dev]`.
pub struct Dev {
    pub static_files: String,
}

/// The settings of the section `[log]`.
pub struct Log {
    pub tracing: String,
    pub rolling: String,
    pub path: String,
    pub prefix: String,
    pub format: String,
}

/// The settings of the section `[server]`.
pub struct Server {
    pub bind_address: String,
    pub bind_port: u16,
}

/// The settings of the reserved sections.
pub struct Settings {
    pub app: App,
    pub database: Database,
    pub dev: Dev,
    pub log: Log,
    pub server: Server,
}

/// How often the log file is changed.
#[derive(Clone, Copy, Debug, PartialEq, Eq, Structural)]
pub enum LogRolling {
    Stdout,
    Daily,
    Hourly,
    Minutely,
    Endless,
}

/// How the entries of the log are written.
#[derive(Clone, Copy, Debug, PartialEq, Eq, Structural)]
pub enum LogFormat {
    Json,
    Full,
    Compact,
    Pretty,
}

/// The font of the banner that is shown at startup.
#[derive(Clone, Copy, Debug, PartialEq, Eq, Structural)]
pub enum BannerFont {
    Slant,
    Small,
    Speed,
    Starwars,
}

/// The kind of database.
#[derive(Clone, Copy, Debug, PartialEq, Eq, Structural)]
pub enum DbBackend {
    MySql,
    Postgres,
    Sqlite,
}

/// What a setting for the rolling of the log stands for; `Daily` for one
/// that is not known. `setting` is in lower case.
pub open spec fn rolling_for(setting: Seq<char>) -> LogRolling {
    if setting == "stdout"@ {
        LogRolling::Stdout
    } else if setting == "daily"@ {
        LogRolling::Daily
    } else if setting == "hourly"@ {
        LogRolling::Hourly
    } else if setting == "minutely"@ {
        LogRolling::Minutely
    } else if setting == "endless"@ {
        LogRolling::Endless
    } else {
        LogRolling::Daily
    }
}

/// Whether a setting for the rolling of the log is one that is known.
pub open spec fn rolling_known(setting: Seq<char>) -> bool {
    setting == "stdout"@ || setting == "daily"@ || setting == "hourly"@ || setting == "minutely"@
        || setting == "endless"@
}

/// What a setting for the format of the log stands for; `Full` for one
/// that is not known. `setting` is in lower case.
pub open spec fn format_for(setting: Seq<char>) -> LogFormat {
    if setting == "json"@ {
        LogFormat::Json
    } else if setting == "full"@ {
        LogFormat::Full
    } else if setting == "compact"@ {
        LogFormat::Compact
    } else if setting == "pretty"@ {
        LogFormat::Pretty
    } else {
        LogFormat::Full
    }
}

/// Whether a setting for the format of the log is one that is known.
pub open spec fn format_known(setting: Seq<char>) -> bool {
    setting == "json"@ || setting == "full"@ || setting == "compact"@ || setting == "pretty"@
}

/// What a setting for the banner stands for; `Slant` for one that is not
/// known. `setting` is in lower case.
pub open spec fn font_for(setting: Seq<char>) -> BannerFont {
    if setting == "off"@ || setting == "slant"@ {
        BannerFont::Slant
    } else if setting == "small"@ {
        BannerFont::Small
    } else if setting == "speed"@ {
        BannerFont::Speed
    } else if setting == "starwars"@ {
        BannerFont::Starwars
    } else {
        BannerFont::Slant
    }
}

/// Whether a setting for the banner is one that is known.
pub open spec fn font_known(setting: Seq<char>) -> bool {
    setting == "off"@ || setting == "slant"@ || setting == "small"@ || setting == "speed"@
        || setting == "starwars"@
}

/// What a setting for the direction of text stands for. `setting` is in lower case.
pub open spec fn direction_for(setting: Seq<char>) -> Option<TextDirection> {
    if setting == "auto"@ {
        Some(TextDirection::Auto)
    } else if setting == "ltr"@ {
        Some(TextDirection::LeftToRight)
    } else if setting == "rtl"@ {
        Some(TextDirection::RightToLeft)
    } else {
        None
    }
}

/// Whether a setting for the direction of text is a direction or is empty.
pub open spec fn direction_known(setting: Seq<char>) -> bool {
    direction_for(setting) is Some || setting.len() == 0
}

/// What a setting for the type of the database stands for.
pub open spec fn backend_for(db_type: Seq<char>) -> Option<DbBackend> {
    if db_type == "mysql"@ {
        Some(DbBackend::MySql)
    } else if db_type == "postgres"@ {
        Some(DbBackend::Postgres)
    } else if db_type == "sqlite"@ {
        Some(DbBackend::Sqlite)
    } else {
        None
    }
}

/// The first two characters of `language`, or all of it if it is shorter.
pub open spec fn language_prefix(language: Seq<char>) -> Seq<char> {
    if language.len() >= 2 {
        language.subrange(0, 2)
    } else {
        language
    }
}

/// The rolling of the log for a setting in lower case, and whether the
/// setting is known.
pub fn rolling_of(setting: &str) -> (r: (LogRolling, bool))
    ensures
        r.0 == rolling_for(setting@),
        r.1 == rolling_known(setting@),
{
    if is_text(setting, "stdout") {
        (LogRolling::Stdout, true)
    } else if is_text(setting, "daily") {
        (LogRolling::Daily, true)
    } else if is_text(setting, "hourly") {
        (LogRolling::Hourly, true)
    } else if is_text(setting, "minutely") {
        (LogRolling::Minutely, true)
    } else if is_text(setting, "endless") {
        (LogRolling::Endless, true)
    } else {
        (LogRolling::Daily, false)
    }
}

/// The format of the log for a setting in lower case, and whether the
/// setting is known.
pub fn format_of(setting: &str) -> (r: (LogFormat, bool))
    ensures
        r.0 == format_for(setting@),
        r.1 == format_known(setting@),
{
    if is_text(setting, "json") {
        (LogFormat::Json, true)
    } else if is_text(setting, "full") {
        (LogFormat::Full, true)
    } else if is_text(setting, "compact") {
        (LogFormat::Compact, true)
    } else if is_text(setting, "pretty") {
        (LogFormat::Pretty, true)
    } else {
        (LogFormat::Full, false)
    }
}

/// The font of the banner for a setting in lower case, and whether the
/// setting is known.
pub fn font_of(setting: &str) -> (r: (BannerFont, bool))
    ensures
        r.0 == font_for(setting@),
        r.1 == font_known(setting@),
{
    if is_text(setting, "off") || is_text(setting, "slant") {
        (BannerFont::Slant, true)
    } else if is_text(setting, "small") {
        (BannerFont::Small, true)
    } else if is_text(setting, "speed") {
        (BannerFont::Speed, true)
    } else if is_text(setting, "starwars") {
        (BannerFont::Starwars, true)
    } else {
        (BannerFont::Slant, false)
    }
}

/// The direction of text for a setting in lower case, and whether the
/// setting is a direction or is empty.
pub fn direction_of(setting: &str) -> (r: (Option<TextDirection>, bool))
    ensures
        r.0 == direction_for(setting@),
        r.1 == direction_known(setting@),
{
    if is_text(setting, "auto") {
        (Some(TextDirection::Auto), true)
    } else if is_text(setting, "ltr") {
        (Some(TextDirection::LeftToRight), true)
    } else if is_text(setting, "rtl") {
        (Some(TextDirection::RightToLeft), true)
    } else {
        (None, setting.unicode_len() == 0)
    }
}

impl Log {
    /// How often the log file is changed, and whether the setting is known.
    pub fn rolling_kind(&self) -> (r: (LogRolling, bool))
        ensures
            r.0 == rolling_for(lowercase(self.rolling@)),
            r.1 == rolling_known(lowercase(self.rolling@)),
    {
        let lower = to_lowercase(self.rolling.as_str());
        rolling_of(lower.as_str())
    }

    /// How the entries of the log are written, and whether the setting is known.
    pub fn format_kind(&self) -> (r: (LogFormat, bool))
        ensures
            r.0 == format_for(lowercase(self.format@)),
            r.1 == format_known(lowercase(self.format@)),
    {
        let lower = to_lowercase(self.format.as_str());
        format_of(lower.as_str())
    }
}

impl App {
    /// Whether a banner is shown at startup.
    pub fn banner_enabled(&self) -> (b: bool)
        ensures
            b == (lowercase(self.startup_banner@) != "off"@),
    {
        let lower = to_lowercase(self.startup_banner.as_str());
        !is_text(lower.as_str(), "off")
    }

    /// The font of the banner, and whether the setting is known.
    pub fn banner_font(&self) -> (r: (BannerFont, bool))
        ensures
            r.0 == font_for(lowercase(self.startup_banner@)),
            r.1 == font_known(lowercase(self.startup_banner@)),
    {
        let lower = to_lowercase(self.startup_banner.as_str());
        font_of(lower.as_str())
    }

    /// The language of the pages: the first two characters of the setting, in
    /// lower case. None if the setting is empty.
    pub fn default_language(&self) -> (r: Option<String>)
        ensures
            opt_view(r) == if self.language@.len() == 0 {
                None
            } else {
                Some(lowercase(language_prefix(self.language@)))
            },
    {
        let v = chars_of(self.language.as_str());
        if v.len() == 0 {
            None
        } else {
            let prefix = if v.len() >= 2 {
                string_of(&v, 0, 2)
            } else {
                string_of(&v, 0, v.len())
            };
            proof {
                if v@.len() < 2 {
                    assert(v@.subrange(0, v@.len() as int) == v@);
                }
            }
            Some(to_lowercase(prefix.as_str()))
        }
    }

    /// The direction of the text of the pages, and whether the setting is a
    /// direction or is empty.
    pub fn default_direction(&self) -> (r: (Option<TextDirection>, bool))
        ensures
            r.0 == direction_for(lowercase(self.direction@)),
            r.1 == direction_known(lowercase(self.direction@)),
    {
        let lower = to_lowercase(self.direction.as_str());
        direction_of(lower.as_str())
    }
}

/// The address of a database: `type://host/name` for the servers, and
/// `type://name` for a file.
pub open spec fn address_for(backend: DbBackend, db: Database) -> Seq<char> {
    match backend {
        DbBackend::Sqlite => db.db_type@ + "://"@ + db.db_name@,
        _ => db.db_type@ + "://"@ + db.db_host@ + "/"@ + db.db_name@,
    }
}

impl Database {
    /// The kind of database, if the setting names one.
    pub fn backend(&self) -> (r: Option<DbBackend>)
        ensures
            r == backend_for(self.db_type@),
    {
        if is_text(self.db_type.as_str(), "mysql") {
            Some(DbBackend::MySql)
        } else if is_text(self.db_type.as_str(), "postgres") {
            Some(DbBackend::Postgres)
        } else if is_text(self.db_type.as_str(), "sqlite") {
            Some(DbBackend::Sqlite)
        } else {
            None
        }
    }

    /// The address of the database, without user, password and port. None
    /// if the setting names no kind of database.
    pub fn address(&self) -> (r: Option<String>)
        ensures
            match backend_for(self.db_type@) {
                Some(backend) => opt_view(r) == Some(address_for(backend, *self)),
                None => r is None,
            },
    {
        match self.backend() {
            Some(DbBackend::Sqlite) => {
                let mut a = self.db_type.clone();
                a.append("://");
                a.append(self.db_name.as_str());
                Some(a)
            },
            Some(_) => {
                let mut a = self.db_type.clone();
                a.append("://");
                a.append(self.db_host.as_str());
                a.append("/");
                a.append(self.db_name.as_str());
                Some(a)
            },
            None => None,
        }
    }

    /// Whether the port is to be set in the address: 0 stands for the port
    /// that the kind of database has by default.
    pub fn has_port(&self) -> (b: bool)
        ensures
            b == (self.db_port != 0),
    {
        self.db_port != 0
    }
}

impl Settings {
    /// The settings that hold where the configuration says nothing.
    pub fn defaults() -> (s: Self)
        ensures
            s.app.name@ == "PageTop Application"@,
            s.app.description@ == "Developed with the amazing PageTop framework."@,
            s.app.theme@ == "Basic"@,
            s.app.language@ == "en-US"@,
            s.app.direction@ == "ltr"@,
            s.app.startup_banner@ == "Slant"@,
            s.app.run_mode@ == "default"@,
            s.database.db_type@ == ""@,
            s.database.db_name@ == ""@,
            s.database.db_user@ == ""@,
            s.database.db_pass@ == ""@,
            s.database.db_host@ == "localhost"@,
            s.database.db_port == 0,
            s.database.max_pool_size == 5,
            s.dev.static_files@ == ""@,
            s.log.tracing@ == "Info"@,
            s.log.rolling@ == "Stdout"@,
            s.log.path@ == "log"@,
            s.log.prefix@ == "tracing.log"@,
            s.log.format@ == "Full"@,
            s.server.bind_address@ == "localhost"@,
            s.server.bind_port == 8088,
    {
        Settings {
            app: App {
                name: "PageTop Application".to_owned(),
                description: "Developed with the amazing PageTop framework.".to_owned(),
                theme: "Basic".to_owned(),
                language: "en-US".to_owned(),
                direction: "ltr".to_owned(),
                startup_banner: "Slant".to_owned(),
                run_mode: "default".to_owned(),
            },
            database: Database {
                db_type: "".to_owned(),
                db_name: "".to_owned(),
                db_user: "".to_owned(),
                db_pass: "".to_owned(),
                db_host: "localhost".to_owned(),
                db_port: 0,
                max_pool_size: 5,
            },
            dev: Dev { static_files: "".to_owned() },
            log: Log {
                tracing: "Info".to_owned(),
                rolling: "Stdout".to_owned(),
                path: "log".to_owned(),
                prefix: "tracing.log".to_owned(),
                format: "Full".to_owned(),
            },
            server: Server { bind_address: "localhost".to_owned(), bind_port: 8088 },
        }
    }
}

} // verus!
