use sisr::binding_enforcer::{make_force_url, BindingEnforcer};
use sisr::config::Config;
use sisr::events::{RunnerEvent, TrayMenuEvent};
use sisr::logging::{add_sink, set_level, DiscardSink, Level, LevelFilter, LogSink, Logger};
use sisr::steam::{
    get_shortcuts_path, get_ws_server_port, init, launched_via_steam, marker_game_id,
    set_ws_server_port, sisr_host, CefTab, SteamLaunch, WsServerPort,
};

#[test]
fn enforcer_reads_the_game_id() {
    let e = BindingEnforcer::new(Some("12884901890"));
    assert_eq!(e.game_id(), Some(12884901890));
    assert_eq!(e.app_id(), Some(3));
    assert!(!e.is_active());
    let none = BindingEnforcer::new(None);
    assert_eq!(none.game_id(), None);
    assert_eq!(none.app_id(), None);
    let bad = BindingEnforcer::new(Some("abc"));
    assert_eq!(bad.game_id(), None);
    assert_eq!(bad.app_id(), None);
    let big = BindingEnforcer::new(Some("18446744073709551615"));
    assert_eq!(big.app_id(), Some(u32::MAX));
}

#[test]
fn enforcer_hands_out_urls_and_settles() {
    let mut e = BindingEnforcer::new(Some("12884901890"));
    assert_eq!(e.deactivate(), None);
    assert_eq!(e.activate(), Some("steam://forceinputappid/3".to_string()));
    assert!(!e.is_active());
    e.url_opened(true, false);
    assert!(!e.is_active());
    assert_eq!(e.activate(), Some("steam://forceinputappid/3".to_string()));
    e.url_opened(true, true);
    assert!(e.is_active());
    assert_eq!(e.activate(), None);
    assert_eq!(e.activate_with_appid(9), None);
    assert_eq!(e.deactivate(), Some("steam://forceinputappid/0".to_string()));
    e.url_opened(false, false);
    assert!(e.is_active());
    e.url_opened(false, true);
    assert!(!e.is_active());
    assert_eq!(e.activate_with_appid(4000000000), Some("steam://forceinputappid/4000000000".to_string()));
    assert_eq!(e.game_id(), Some(12884901890));
}

#[test]
fn enforcer_without_app_id_does_not_activate() {
    let e = BindingEnforcer::new(None);
    assert_eq!(e.activate(), None);
    assert_eq!(e.activate_with_appid(5), Some("steam://forceinputappid/5".to_string()));
    assert_eq!(make_force_url(0), "steam://forceinputappid/0");
}

#[test]
fn ws_port_is_set_once() {
    let mut cell = WsServerPort { port: None };
    assert_eq!(get_ws_server_port(&cell), None);
    assert_eq!(sisr_host(&cell), "localhost:0");
    assert!(set_ws_server_port(&mut cell, 8123));
    assert!(!set_ws_server_port(&mut cell, 9000));
    assert_eq!(get_ws_server_port(&cell), Some(8123));
    assert_eq!(sisr_host(&cell), "localhost:8123");
}

#[test]
fn launch_flag_is_set_once() {
    let mut cell = SteamLaunch { launched: None };
    assert!(!launched_via_steam(&cell));
    init(&mut cell, true);
    assert!(launched_via_steam(&cell));
    init(&mut cell, false);
    assert!(launched_via_steam(&cell));
    let mut other = SteamLaunch { launched: None };
    init(&mut other, false);
    assert!(!launched_via_steam(&other));
}

#[test]
fn shortcuts_path_is_below_userdata() {
    assert_eq!(
        get_shortcuts_path("/home/u/.steam/steam", 42),
        "/home/u/.steam/steam/userdata/42/config/shortcuts.vdf"
    );
    assert_eq!(get_shortcuts_path("C:/Steam/", 7), "C:/Steam/userdata/7/config/shortcuts.vdf");
    assert_eq!(get_shortcuts_path("", 0), "userdata/0/config/shortcuts.vdf");
}

#[test]
fn marker_game_id_has_the_app_in_the_upper_half() {
    assert_eq!(marker_game_id(3), (3u64 << 32) | (2 << 24));
    assert_eq!(marker_game_id(0), 2 << 24);
    assert_eq!(marker_game_id(u32::MAX), ((u32::MAX as u64) << 32) | (2 << 24));
}

#[test]
fn default_settings() {
    let c = Config::defaults("INFO", Some("/tmp/SISR.log".to_string()));
    assert_eq!(c.tray, Some(true));
    assert_eq!(c.viiper_address.as_deref(), Some("localhost:3242"));
    assert_eq!(c.window.create, Some(false));
    assert_eq!(c.window.fullscreen, Some(true));
    assert_eq!(c.window.continous_draw, Some(false));
    assert!(!c.window.continuous_redraw());
    assert_eq!(c.log.level.as_deref(), Some("INFO"));
    let file = c.log.log_file.clone().unwrap();
    assert_eq!(file.path.as_deref(), Some("/tmp/SISR.log"));
    assert_eq!(file.file_level.as_deref(), Some("Info"));
    assert_eq!(c.steam.steam_launch_timeout_secs, Some(1));
    assert_eq!(c.steam.cef_debug_disable, Some(false));
    assert_eq!(c.debug, 0);
    assert!(!c.marker);
    assert_eq!(c.server_address(), "localhost:3242");
    let mut d = c.clone();
    d.viiper_address = None;
    assert_eq!(d.server_address(), "localhost:3242");
    d.viiper_address = Some("10.0.0.2:99".to_string());
    assert_eq!(d.server_address(), "10.0.0.2:99");
}

#[test]
fn plain_events_compare() {
    assert_eq!(RunnerEvent::SetKbmCursorGrab(true), RunnerEvent::SetKbmCursorGrab(true));
    assert_ne!(RunnerEvent::Redraw(), RunnerEvent::Quit());
    assert_ne!(TrayMenuEvent::Quit, TrayMenuEvent::ToggleWindow);
    let tab = CefTab {
        description: String::new(),
        devtools_frontend_url: String::new(),
        id: "1".to_string(),
        title: "Overlay".to_string(),
        tab_type: "page".to_string(),
        url: String::new(),
        web_socket_debugger_url: "ws://x".to_string(),
    };
    assert_eq!(tab.clone().title, "Overlay");
}

#[test]
fn filters_let_through_what_is_no_more_talkative() {
    let levels = [Level::Error, Level::Warn, Level::Info, Level::Debug, Level::Trace];
    let filters = [
        LevelFilter::Off,
        LevelFilter::Error,
        LevelFilter::Warn,
        LevelFilter::Info,
        LevelFilter::Debug,
        LevelFilter::Trace,
    ];
    for (f, filter) in filters.iter().enumerate() {
        for (l, level) in levels.iter().enumerate() {
            assert_eq!(filter.admits(*level), l + 1 <= f);
        }
    }
    assert_eq!(LevelFilter::from_level(Level::Info), LevelFilter::Info);
    assert_eq!(LevelFilter::from_level(Level::Trace), LevelFilter::Trace);
}

#[test]
fn records_go_to_the_sinks_that_want_them() {
    let mut logger: Logger<DiscardSink> = Logger::new(LevelFilter::Info);
    assert!(logger.shows(Level::Warn));
    assert!(!logger.shows(Level::Debug));
    set_level(&mut logger, Level::Trace);
    assert!(logger.shows(Level::Debug));
    assert_eq!(logger.publish(Level::Error, "x"), Vec::<usize>::new());
    add_sink(&mut logger, DiscardSink { level: LevelFilter::Warn });
    add_sink(&mut logger, DiscardSink { level: LevelFilter::Off });
    add_sink(&mut logger, DiscardSink { level: LevelFilter::Trace });
    assert_eq!(logger.sinks[0].level_filter(), LevelFilter::Warn);
    assert_eq!(logger.publish(Level::Error, "x"), vec![0, 2]);
    assert_eq!(logger.publish(Level::Warn, "x"), vec![0, 2]);
    assert_eq!(logger.publish(Level::Info, "x"), vec![2]);
    set_level(&mut logger, Level::Error);
    assert_eq!(logger.sinks.len(), 3);
    assert!(!logger.shows(Level::Warn));
}
