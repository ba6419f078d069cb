use wallpaper_core::assistant::{parse_command_simple, reply_for_lowercase, AssistantState};
use wallpaper_core::desktop::{extract_exe_icon, get_default_pinned_apps, parse_shortcut, ToolbarConfig};
use wallpaper_core::library::{find_wallpaper, NativeWallpaper, WallpaperType};
use wallpaper_core::notifications::{
    add_notification, clear_all_notifications, get_all_notifications, inject_notification_center,
    remove_notification, NotificationCenter, WindowsNotification,
};
use wallpaper_core::pets::{
    package_defaults, prettify_name, prettify_with_uppers, sort_catalog, CatalogPet, Pet, PetManager,
};
use wallpaper_core::tray::{SystemTrayIcon, TrayIconManager};
use wallpaper_core::voice::{AppState, SpeechProvider};

fn note(id: &str, timestamp: u64) -> WindowsNotification {
    WindowsNotification {
        id: id.to_string(),
        app_name: "App".to_string(),
        title: format!("title {}", id),
        message: String::new(),
        icon_base64: String::new(),
        timestamp,
    }
}

#[test]
fn notifications_come_newest_first() {
    let mut center = NotificationCenter::new();
    assert!(inject_notification_center().is_ok());
    add_notification(&mut center, note("a", 10)).unwrap();
    add_notification(&mut center, note("b", 30)).unwrap();
    add_notification(&mut center, note("c", 20)).unwrap();
    let ids: Vec<String> = get_all_notifications(&center).unwrap().into_iter().map(|n| n.id).collect();
    assert_eq!(ids, vec!["b", "c", "a"]);
}

#[test]
fn notification_with_same_id_is_replaced_and_removal_works() {
    let mut center = NotificationCenter::new();
    add_notification(&mut center, note("a", 10)).unwrap();
    add_notification(&mut center, note("a", 50)).unwrap();
    let all = get_all_notifications(&center).unwrap();
    assert_eq!(all.len(), 1);
    assert_eq!(all[0].timestamp, 50);
    remove_notification(&mut center, "missing").unwrap();
    remove_notification(&mut center, "a").unwrap();
    assert!(get_all_notifications(&center).unwrap().is_empty());
    add_notification(&mut center, note("x", 1)).unwrap();
    clear_all_notifications(&mut center).unwrap();
    assert!(get_all_notifications(&center).unwrap().is_empty());
}

fn icon(id: &str, tooltip: &str) -> SystemTrayIcon {
    SystemTrayIcon {
        id: id.to_string(),
        window_handle: 7,
        uid: 1,
        callback_message: 0x400,
        tooltip: tooltip.to_string(),
        icon_base64: String::new(),
        is_visible: true,
    }
}

#[test]
fn tray_icons_are_kept_by_id() {
    let mut tray = TrayIconManager::new();
    tray.add_icon(icon("vol", "Volume"));
    tray.add_icon(icon("net", "Network"));
    tray.update_icon("vol", icon("vol", "Muted"));
    let all = tray.get_all_icons();
    assert_eq!(all.len(), 2);
    assert_eq!(all[0].tooltip, "Muted");
    assert_eq!(tray.get_icon("net").unwrap().tooltip, "Network");
    tray.remove_icon("net");
    assert!(tray.get_icon("net").is_none());
    assert_eq!(tray.get_all_icons().len(), 1);
}

#[test]
fn pets_move_and_resize_by_id() {
    let mut pets = PetManager::new("pets.json".to_string());
    pets.insert_pet(Pet { id: "cat".to_string(), file_path: "cat.gif".to_string(), x: 0, y: 0, width: 64, height: 64 });
    pets.update_pet_position("cat".to_string(), 120, -5);
    pets.update_pet_size("cat".to_string(), 200, 150);
    pets.update_pet_position("dog".to_string(), 1, 1);
    let all = pets.get_all_pets();
    assert_eq!(all.len(), 1);
    assert_eq!((all[0].x, all[0].y, all[0].width, all[0].height), (120, -5, 200, 150));
    assert!(pets.get_pet("dog").is_none());
    assert_eq!(pets.save_path(), "pets.json");
}

#[test]
fn supported_pet_assets() {
    assert!(PetManager::is_supported_asset(Some("GIF")));
    assert!(PetManager::is_supported_asset(Some("jpeg")));
    assert!(!PetManager::is_supported_asset(Some("bmp")));
    assert!(!PetManager::is_supported_asset(None));
    assert_eq!(package_defaults(), (128, 128, 2, 12, true));
}

#[test]
fn wallpaper_type_from_extension() {
    assert_eq!(WallpaperType::from_extension("MP4"), WallpaperType::Video);
    assert_eq!(WallpaperType::from_extension("jpeg"), WallpaperType::Image);
    assert_eq!(WallpaperType::from_extension("gif"), WallpaperType::Gif);
    assert_eq!(WallpaperType::from_extension("Htm"), WallpaperType::Html);
    assert_eq!(WallpaperType::from_extension("xyz"), WallpaperType::Image);
    assert_eq!(WallpaperType::from_lowercase_extension(&"mkv".to_string()), WallpaperType::Video);
    assert_eq!(WallpaperType::from_lively_code(1), WallpaperType::Video);
    assert_eq!(WallpaperType::from_lively_code(2), WallpaperType::Gif);
    assert_eq!(WallpaperType::from_lively_code(5), WallpaperType::Image);
    assert_eq!(WallpaperType::from_lively_code(3), WallpaperType::Html);
    assert!(WallpaperType::Video.is_video());
}

#[test]
fn library_lookup_by_id() {
    let list = vec![
        NativeWallpaper::from_file("sea".to_string(), "C:/w/sea.webm".to_string(), "WEBM"),
        NativeWallpaper::from_file("sky".to_string(), "C:/w/sky.png".to_string(), "png"),
    ];
    assert_eq!(list[0].wallpaper_type, WallpaperType::Video);
    assert_eq!(list[1].title, "sky");
    assert_eq!(find_wallpaper(&list, &"sky".to_string()), Some(1));
    assert_eq!(find_wallpaper(&list, &"none".to_string()), None);
}

#[test]
fn simple_command_parser() {
    assert_eq!(parse_command_simple("Открой КУРСОРЫ"), "{\"action\": \"open_cursors\"}");
    assert_eq!(parse_command_simple("add a PET"), "{\"action\": \"add_pet\"}");
    assert_eq!(parse_command_simple("сверни всё"), "{\"action\": \"minimize\"}");
    assert_eq!(reply_for_lowercase("quit now"), "{\"action\": \"quit\"}");
    assert!(parse_command_simple("hello").starts_with("{\"action\": \"chat\""));
}

#[test]
fn defaults_and_records() {
    let apps = get_default_pinned_apps();
    assert_eq!(apps.len(), 3);
    assert_eq!(apps[0].exe_path, "explorer.exe");
    let item = parse_shortcut(Some("Notepad"), "C:/menu/Notepad.lnk".to_string()).unwrap();
    assert_eq!(item.name, "Notepad");
    assert_eq!(parse_shortcut(None, "x".to_string()).unwrap().name, "Unknown");
    assert!(extract_exe_icon("a.exe").is_none());
    assert!(ToolbarConfig::default().pins.is_empty());
    assert!(AssistantState::new().conversation.is_empty());
    assert_eq!(SpeechProvider::default(), SpeechProvider::Browser);
    let mut state = AppState::default();
    assert!(state.toggle_listening());
    assert!(!state.toggle_listening());
}

#[test]
fn pet_mime_types_and_animation_states() {
    assert_eq!(PetManager::mime_from_extension(Some("PNG")), "image/png");
    assert_eq!(PetManager::mime_from_extension(Some("jpeg")), "image/jpeg");
    assert_eq!(PetManager::mime_from_extension(Some("svg")), "image/svg+xml");
    assert_eq!(PetManager::mime_from_extension(Some("txt")), "application/octet-stream");
    assert_eq!(PetManager::mime_from_extension(None), "application/octet-stream");
    let mut anims = wallpaper_core::pets::ShimejiAnimePos::default();
    assert!(anims.states().is_empty());
    anims.climb = Some(wallpaper_core::pets::ShimejiAnimPos { line: 3, count: 4 });
    anims.stand = Some(wallpaper_core::pets::ShimejiAnimPos { line: 0, count: 1 });
    anims.sit = Some(wallpaper_core::pets::ShimejiAnimPos { line: 1, count: 2 });
    assert_eq!(anims.states(), vec!["stand", "sit", "climb"]);
}

#[test]
fn removed_ids_are_gone_and_catalog_sorts_by_folded_name() {
    let mut tray = TrayIconManager::new();
    tray.add_icon(icon("a", "A"));
    tray.update_icon("a", icon("a", "B"));
    tray.remove_icon("a");
    assert!(tray.get_icon("a").is_none());
    assert!(tray.get_all_icons().is_empty());

    let pet = |name: &str| CatalogPet {
        id: name.to_string(),
        name: name.to_string(),
        category: String::new(),
        preview: String::new(),
    };
    let sorted = sort_catalog(vec![pet("cat"), pet("Bird"), pet("ant"), pet("Cat")]);
    let names: Vec<String> = sorted.into_iter().map(|p| p.name).collect();
    assert_eq!(names, vec!["ant", "Bird", "cat", "Cat"]);
}

#[test]
fn pet_names_are_prettified() {
    assert_eq!(prettify_name("my_cute-cat"), "My Cute Cat");
    assert_eq!(prettify_name("  ёжик  big "), "Ёжик Big");
    assert_eq!(prettify_name(""), "Pet");
    assert_eq!(prettify_name("__"), "");
}

#[test]
fn prettify_with_given_upper_forms() {
    let uppers: Vec<String> = "ab-c".chars().map(|c| c.to_uppercase().collect()).collect();
    assert_eq!(prettify_with_uppers("ab-c", &uppers), "Ab C");
    let odd = vec!["X".to_string(), "?".to_string(), "?".to_string()];
    assert_eq!(prettify_with_uppers("a b", &odd), "X ?");
}
