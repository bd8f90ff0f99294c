use potd_wallpaper::gnu_linux::{classify_session, DesktopKind, GnuLinuxProvider};
use potd_wallpaper::macos::{find_screen_resolution, set_wallpaper_script, MacosProvider};
use potd_wallpaper::{
    install, Platform, PlatformProvider, ProviderError, WallpaperAction,
};

#[test]
fn bounds_reply_is_parsed_into_a_resolution() {
    assert_eq!(find_screen_resolution("0, 0, 1920, 1080\n"), Ok((1920, 1080)));
    assert_eq!(find_screen_resolution("100, 50, 1380, 850"), Ok((1280, 800)));
    assert_eq!(find_screen_resolution("5, 5, 5, 5"), Ok((0, 0)));
}

#[test]
fn bounds_reply_with_wrong_field_count_is_malformed() {
    assert_eq!(
        find_screen_resolution("0, 0, 1920"),
        Err(ProviderError::MalformedBounds)
    );
    assert_eq!(
        find_screen_resolution("0, 0, 1920, 1080, 7"),
        Err(ProviderError::MalformedBounds)
    );
    assert_eq!(find_screen_resolution(""), Err(ProviderError::MalformedBounds));
    assert_eq!(
        find_screen_resolution("garbage"),
        Err(ProviderError::MalformedBounds)
    );
}

#[test]
fn bounds_reply_with_unreadable_numbers_is_malformed() {
    assert_eq!(
        find_screen_resolution("a, 0, 1920, 1080"),
        Err(ProviderError::MalformedBounds)
    );
    assert_eq!(
        find_screen_resolution("0, 0, 19x20, 1080"),
        Err(ProviderError::MalformedBounds)
    );
}

#[test]
fn inverted_bounds_are_rejected() {
    assert_eq!(
        find_screen_resolution("1920, 0, 0, 1080"),
        Err(ProviderError::InvertedBounds)
    );
    assert_eq!(
        find_screen_resolution("0, 1080, 1920, 0"),
        Err(ProviderError::InvertedBounds)
    );
}

#[test]
fn session_classification_is_case_folded() {
    assert_eq!(classify_session("ubuntu:gnome"), DesktopKind::Gnome);
    assert_eq!(classify_session("x-cinnamon"), DesktopKind::Cinnamon);
    assert_eq!(classify_session("cinnamon"), DesktopKind::Cinnamon);
    assert_eq!(classify_session("kde"), DesktopKind::Unsupported);
    assert_eq!(classify_session(""), DesktopKind::Unsupported);
}

#[test]
fn cinnamon_session_yields_the_cinnamon_schema() {
    let p = GnuLinuxProvider {};
    let action = p
        .set_desktop_wallpaper_url(Some("X-Cinnamon"), "http://a/x.jpg")
        .unwrap();
    match action {
        WallpaperAction::RunCommand(c) => {
            assert_eq!(c.program, "gsettings");
            assert_eq!(
                c.args,
                vec![
                    "set".to_string(),
                    "org.cinnamon.desktop.background".to_string(),
                    "picture-uri".to_string(),
                    "http://a/x.jpg".to_string(),
                ]
            );
        }
        other => panic!("unexpected action: {:?}", other),
    }
}

#[test]
fn gnome_session_yields_a_gsettings_command() {
    let p = GnuLinuxProvider {};
    let action = p
        .set_desktop_wallpaper_url(Some("ubuntu:GNOME"), "http://a/x.jpg")
        .unwrap();
    match action {
        WallpaperAction::RunCommand(c) => {
            assert_eq!(c.program, "gsettings");
            assert_eq!(
                c.args,
                vec![
                    "set".to_string(),
                    "org.gnome.desktop.background".to_string(),
                    "picture-uri".to_string(),
                    "http://a/x.jpg".to_string(),
                ]
            );
        }
        other => panic!("unexpected action: {:?}", other),
    }
}

#[test]
fn missing_session_is_an_error() {
    let p = GnuLinuxProvider {};
    let r = p.set_desktop_wallpaper_url(None, "http://a/x.jpg");
    assert_eq!(r.unwrap_err(), ProviderError::SessionNotSet);
    assert_eq!(
        ProviderError::SessionNotSet.message(),
        "XDG_CURRENT_DESKTOP is not set"
    );
}

#[test]
fn unknown_session_is_an_error() {
    let p = GnuLinuxProvider {};
    let r = p.set_desktop_wallpaper_url(Some("sway"), "http://a/x.jpg");
    assert_eq!(r.unwrap_err(), ProviderError::UnsupportedDesktop);
    assert_eq!(
        ProviderError::UnsupportedDesktop.message(),
        "Unsupported desktop environment"
    );
}

#[test]
fn gnu_linux_resolution_is_fixed() {
    let p = GnuLinuxProvider {};
    assert_eq!(p.find_screen_resolution(None), Ok((1920, 1080)));
}

#[test]
fn macos_resolution_comes_from_the_probe() {
    let p = MacosProvider::new("/Users/u/Library/potd-wallpaper".to_string());
    assert_eq!(p.find_screen_resolution(Some("0, 0, 800, 600")), Ok((800, 600)));
    assert_eq!(
        p.find_screen_resolution(None),
        Err(ProviderError::MalformedBounds)
    );
}

#[test]
fn wallpaper_script_names_the_staged_file() {
    assert_eq!(
        set_wallpaper_script("/tmp/w.jpg"),
        "tell application \"System Events\" to tell every desktop to set picture to \"/tmp/w.jpg\" as POSIX file"
    );
}

#[test]
fn gnu_linux_install_plan_lays_out_the_user_service() {
    let p = install(Platform::GnuLinux, "/home/u");
    assert_eq!(p.binary_path, "/home/u/.local/bin/potd-wallpaper");
    assert_eq!(
        p.service_path,
        "/home/u/.local/lib/systemd/user/potd-wallpaper.service"
    );
    assert_eq!(
        p.directories,
        vec![
            "/home/u/.local/bin".to_string(),
            "/home/u/.local/lib/systemd/user".to_string(),
        ]
    );
    assert_eq!(
        p.service_content,
        "\n[Unit]\nDescription=Picture of the Day Wallpaper Changer\nAfter=network.target\nAfter=graphical-session.target\n\n[Service]\nType=simple\nExecStart=/home/u/.local/bin/potd-wallpaper run\nRestart=on-failure\n\n[Install]\nWantedBy=graphical-session.target\n"
    );
    assert_eq!(p.commands.len(), 2);
    assert_eq!(p.commands[0].program, "systemctl");
    assert_eq!(
        p.commands[0].args,
        vec![
            "--user".to_string(),
            "enable".to_string(),
            "potd-wallpaper.service".to_string(),
        ]
    );
    assert_eq!(
        p.commands[1].args,
        vec![
            "--user".to_string(),
            "restart".to_string(),
            "potd-wallpaper.service".to_string(),
        ]
    );
}

#[test]
fn macos_install_plan_lays_out_the_launch_agent() {
    let p = install(Platform::Macos, "/Users/u");
    assert_eq!(
        p.binary_path,
        "/Users/u/Library/potd-wallpaper/potd-wallpaper"
    );
    assert_eq!(
        p.service_path,
        "/Users/u/Library/LaunchAgents/org.menhera.potd-wallpaper.plist"
    );
    assert_eq!(
        p.directories,
        vec![
            "/Users/u/Library/potd-wallpaper".to_string(),
            "/Users/u/Library/LaunchAgents".to_string(),
        ]
    );
    assert!(p
        .service_content
        .contains("<string>/Users/u/Library/potd-wallpaper/potd-wallpaper</string>"));
    assert!(p.service_content.contains("org.menhera.potd-wallpaper"));
    assert_eq!(p.commands.len(), 1);
    assert_eq!(p.commands[0].program, "launchctl");
    assert_eq!(
        p.commands[0].args,
        vec![
            "load".to_string(),
            "/Users/u/Library/LaunchAgents/org.menhera.potd-wallpaper.plist".to_string(),
        ]
    );
}
