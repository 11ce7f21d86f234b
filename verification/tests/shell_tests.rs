use vvconvert::shell::{
    create_main_menu, create_submenu, greeting, handle_updater_event, menu_command,
    refocus_ffmpeg_window, vvenc_version_message, vvenc_version_text, MenuCommand, MenuEntry,
    MenuItemSpec, UpdaterNotice, VVLogger,
};

fn custom_ids(entries: &[MenuEntry]) -> Vec<(String, String)> {
    entries
        .iter()
        .filter_map(|e| match e {
            MenuEntry::Custom(item) => Some((item.id.clone(), item.label.clone())),
            _ => None,
        })
        .collect()
}

#[test]
fn greets_by_name() {
    assert_eq!(greeting("Alec"), "Hello, Alec! Thanks for downloading my program!");
}

#[test]
fn vvenc_version() {
    assert_eq!(vvenc_version_text(b"1.9.1"), "1.9.1");
    assert_eq!(vvenc_version_text(&[0xff, 0xfe]), "Unknown Version");
    assert_eq!(vvenc_version_text("é".as_bytes()), "é");
    assert_eq!(vvenc_version_message("1.9.1"), "VVenC version: 1.9.1");
}

#[test]
fn logger_event() {
    assert_eq!(VVLogger::event_name(), "vvlogger");
}

#[test]
fn main_menu_layout() {
    let menu = create_main_menu(false);
    let titles: Vec<&str> = menu.iter().map(|s| s.title.as_str()).collect();
    assert_eq!(titles, vec!["File", "Tools", "Help"]);
    assert_eq!(
        custom_ids(&menu[0].entries),
        vec![
            ("new".to_string(), "New".to_string()),
            ("open".to_string(), "Open".to_string()),
            ("exit".to_string(), "Exit".to_string()),
        ]
    );
    assert_eq!(custom_ids(&menu[1].entries).len(), 2);
    assert_eq!(custom_ids(&menu[2].entries)[1], ("website".to_string(), "Official Website".to_string()));

    let mac = create_main_menu(true);
    assert_eq!(mac.len(), 4);
    assert_eq!(mac[0].title, "VVConvert");
    assert_eq!(mac[0].entries.len(), 9);
    match &mac[0].entries[0] {
        MenuEntry::About { app_name, copyright } => {
            assert_eq!(app_name, "VVConvert");
            assert_eq!(copyright, "Alec Carter 2023");
        }
        _ => panic!("the application menu begins with About"),
    }
    assert!(matches!(mac[0].entries[8], MenuEntry::Quit));
}

#[test]
fn every_menu_item_has_a_command() {
    for macos in [false, true] {
        for section in create_main_menu(macos) {
            for (id, _) in custom_ids(&section.entries) {
                assert_ne!(menu_command(&id), MenuCommand::Ignore, "item {}", id);
            }
        }
    }
}

#[test]
fn menu_commands() {
    assert_eq!(menu_command("new"), MenuCommand::NewWindow);
    assert_eq!(menu_command("open"), MenuCommand::OpenFile);
    assert_eq!(menu_command("website"), MenuCommand::OpenWebsite);
    assert_eq!(menu_command("check_ffmpeg"), MenuCommand::CheckFfmpeg);
    assert_eq!(menu_command("check_vvc"), MenuCommand::CheckVvc);
    assert_eq!(menu_command("about"), MenuCommand::ShowAbout);
    assert_eq!(menu_command("check_updates"), MenuCommand::CheckUpdates);
    assert_eq!(menu_command("exit"), MenuCommand::Exit);
    assert_eq!(menu_command("quit"), MenuCommand::Ignore);
    assert_eq!(menu_command(""), MenuCommand::Ignore);
}

#[test]
fn submenu_keeps_item_order() {
    let s = create_submenu(
        "Tools",
        vec![MenuItemSpec::new("a", "A"), MenuItemSpec::new("b", "B"), MenuItemSpec::new("c", "C")],
    );
    assert_eq!(s.title, "Tools");
    let ids: Vec<String> = custom_ids(&s.entries).into_iter().map(|(i, _)| i).collect();
    assert_eq!(ids, vec!["a", "b", "c"]);
    assert!(create_submenu("Empty", Vec::new()).entries.is_empty());
}

#[test]
fn updater_messages() {
    let m = |n| handle_updater_event(n);
    assert_eq!(
        m(UpdaterNotice::UpdateAvailable {
            body: "notes".to_string(),
            date: Some("2024-01-02 3:04:05.0 +00:00:00".to_string()),
            version: "1.2.0".to_string(),
        }),
        Some("Update available notes Some(2024-01-02 3:04:05.0 +00:00:00) 1.2.0".to_string())
    );
    assert_eq!(
        m(UpdaterNotice::UpdateAvailable { body: "b".to_string(), date: None, version: "v".to_string() }),
        Some("Update available b None v".to_string())
    );
    assert_eq!(m(UpdaterNotice::Pending), Some("Update is pending!".to_string()));
    assert_eq!(
        m(UpdaterNotice::DownloadProgress { chunk_length: 512, content_length: Some(4096) }),
        Some("Downloaded 512 of Some(4096)".to_string())
    );
    assert_eq!(
        m(UpdaterNotice::DownloadProgress { chunk_length: 1, content_length: None }),
        Some("Downloaded 1 of None".to_string())
    );
    assert_eq!(m(UpdaterNotice::Downloaded), Some("Update has been downloaded!".to_string()));
    assert_eq!(m(UpdaterNotice::Updated), Some("VVConvert has been updated".to_string()));
    assert_eq!(m(UpdaterNotice::AlreadyUpToDate), Some("Up to date!".to_string()));
    assert_eq!(
        m(UpdaterNotice::Error("network down".to_string())),
        Some("Failed to update: network down".to_string())
    );
    assert_eq!(m(UpdaterNotice::Other), None);
}

#[test]
fn focus_passes_to_resolver_window() {
    assert!(refocus_ffmpeg_window(true, true));
    assert!(!refocus_ffmpeg_window(true, false));
    assert!(!refocus_ffmpeg_window(false, true));
}
