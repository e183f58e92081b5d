use pagetop::config::{
    direction_of, font_of, format_of, is_text, rolling_of, BannerFont, DbBackend, LogFormat,
    LogRolling, Settings,
};
use pagetop::module::graph::{compose, ActivationError};
use pagetop::module::ModuleDecl;
use pagetop::page::TextDirection;

#[test]
fn default_settings() {
    let s = Settings::defaults();
    assert_eq!(s.app.name, "PageTop Application");
    assert_eq!(s.app.description, "Developed with the amazing PageTop framework.");
    assert_eq!(s.app.theme, "Basic");
    assert_eq!(s.app.language, "en-US");
    assert_eq!(s.app.direction, "ltr");
    assert_eq!(s.app.startup_banner, "Slant");
    assert_eq!(s.app.run_mode, "default");
    assert_eq!(s.database.db_type, "");
    assert_eq!(s.database.db_name, "");
    assert_eq!(s.database.db_user, "");
    assert_eq!(s.database.db_pass, "");
    assert_eq!(s.database.db_host, "localhost");
    assert_eq!(s.database.db_port, 0);
    assert_eq!(s.database.max_pool_size, 5);
    assert_eq!(s.dev.static_files, "");
    assert_eq!(s.log.tracing, "Info");
    assert_eq!(s.log.rolling, "Stdout");
    assert_eq!(s.log.path, "log");
    assert_eq!(s.log.prefix, "tracing.log");
    assert_eq!(s.log.format, "Full");
    assert_eq!(s.server.bind_address, "localhost");
    assert_eq!(s.server.bind_port, 8088);
}

#[test]
fn decisions_from_the_default_settings() {
    let s = Settings::defaults();
    assert_eq!(s.log.rolling_kind(), (LogRolling::Stdout, true));
    assert_eq!(s.log.format_kind(), (LogFormat::Full, true));
    assert!(s.app.banner_enabled());
    assert_eq!(s.app.banner_font(), (BannerFont::Slant, true));
    assert_eq!(s.app.default_language(), Some("en".to_string()));
    assert_eq!(s.app.default_direction(), (Some(TextDirection::LeftToRight), true));
    assert_eq!(s.database.backend(), None);
    assert_eq!(s.database.address(), None);
    assert!(!s.database.has_port());
}

#[test]
fn settings_are_read_without_regard_to_case() {
    let mut s = Settings::defaults();
    s.log.rolling = "HOURLY".to_string();
    s.log.format = "Json".to_string();
    s.app.startup_banner = "OFF".to_string();
    s.app.language = "ES-es".to_string();
    s.app.direction = "RTL".to_string();
    assert_eq!(s.log.rolling_kind(), (LogRolling::Hourly, true));
    assert_eq!(s.log.format_kind(), (LogFormat::Json, true));
    assert!(!s.app.banner_enabled());
    assert_eq!(s.app.banner_font(), (BannerFont::Slant, true));
    assert_eq!(s.app.default_language(), Some("es".to_string()));
    assert_eq!(s.app.default_direction(), (Some(TextDirection::RightToLeft), true));
}

#[test]
fn settings_that_are_not_known_fall_back() {
    let mut s = Settings::defaults();
    s.log.rolling = "weekly".to_string();
    s.log.format = "xml".to_string();
    s.app.startup_banner = "gothic".to_string();
    s.app.language = "".to_string();
    s.app.direction = "up".to_string();
    assert_eq!(s.log.rolling_kind(), (LogRolling::Daily, false));
    assert_eq!(s.log.format_kind(), (LogFormat::Full, false));
    assert!(s.app.banner_enabled());
    assert_eq!(s.app.banner_font(), (BannerFont::Slant, false));
    assert_eq!(s.app.default_language(), None);
    assert_eq!(s.app.default_direction(), (None, false));
    s.app.language = "E".to_string();
    s.app.direction = "".to_string();
    assert_eq!(s.app.default_language(), Some("e".to_string()));
    assert_eq!(s.app.default_direction(), (None, true));
}

#[test]
fn every_known_setting() {
    assert_eq!(rolling_of("stdout"), (LogRolling::Stdout, true));
    assert_eq!(rolling_of("daily"), (LogRolling::Daily, true));
    assert_eq!(rolling_of("hourly"), (LogRolling::Hourly, true));
    assert_eq!(rolling_of("minutely"), (LogRolling::Minutely, true));
    assert_eq!(rolling_of("endless"), (LogRolling::Endless, true));
    assert_eq!(rolling_of("Daily"), (LogRolling::Daily, false));
    assert_eq!(format_of("json"), (LogFormat::Json, true));
    assert_eq!(format_of("full"), (LogFormat::Full, true));
    assert_eq!(format_of("compact"), (LogFormat::Compact, true));
    assert_eq!(format_of("pretty"), (LogFormat::Pretty, true));
    assert_eq!(format_of(""), (LogFormat::Full, false));
    assert_eq!(font_of("off"), (BannerFont::Slant, true));
    assert_eq!(font_of("slant"), (BannerFont::Slant, true));
    assert_eq!(font_of("small"), (BannerFont::Small, true));
    assert_eq!(font_of("speed"), (BannerFont::Speed, true));
    assert_eq!(font_of("starwars"), (BannerFont::Starwars, true));
    assert_eq!(font_of("big"), (BannerFont::Slant, false));
    assert_eq!(direction_of("auto"), (Some(TextDirection::Auto), true));
    assert_eq!(direction_of("ltr"), (Some(TextDirection::LeftToRight), true));
    assert_eq!(direction_of("rtl"), (Some(TextDirection::RightToLeft), true));
    assert_eq!(direction_of(""), (None, true));
    assert_eq!(direction_of("x"), (None, false));
    assert!(is_text("a", "a"));
    assert!(!is_text("a", "A"));
}

#[test]
fn the_address_of_the_database() {
    let mut s = Settings::defaults();
    s.database.db_type = "postgres".to_string();
    s.database.db_name = "shop".to_string();
    s.database.db_host = "db.local".to_string();
    s.database.db_port = 5433;
    assert_eq!(s.database.backend(), Some(DbBackend::Postgres));
    assert_eq!(s.database.address(), Some("postgres://db.local/shop".to_string()));
    assert!(s.database.has_port());
    s.database.db_type = "mysql".to_string();
    assert_eq!(s.database.backend(), Some(DbBackend::MySql));
    assert_eq!(s.database.address(), Some("mysql://db.local/shop".to_string()));
    s.database.db_type = "sqlite".to_string();
    assert_eq!(s.database.backend(), Some(DbBackend::Sqlite));
    assert_eq!(s.database.address(), Some("sqlite://shop".to_string()));
    s.database.db_type = "oracle".to_string();
    assert_eq!(s.database.address(), None);
}

#[test]
fn messages_of_a_failed_activation() {
    let catalog = vec![
        ModuleDecl {
            handle: 1,
            name: "Shop".to_string(),
            theme: false,
            dependencies: vec![2, 3],
            drop_modules: vec![],
            actions: vec![],
        },
        ModuleDecl {
            handle: 2,
            name: "Cart".to_string(),
            theme: false,
            dependencies: vec![],
            drop_modules: vec![1],
            actions: vec![],
        },
    ];
    let e = compose(&catalog, 1).unwrap_err();
    assert_eq!(e, ActivationError::Unknown(3));
    assert_eq!(e.module(), 3);
    assert_eq!(e.message(&catalog), "Trying to enable \"3\" module which is not declared");
    let e = ActivationError::Dropped(1);
    assert_eq!(e.module(), 1);
    assert_eq!(e.message(&catalog), "Trying to enable \"Shop\" module which is dropped");
}
