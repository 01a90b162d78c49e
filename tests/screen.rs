use mouseless_core::models::Position;
use mouseless_core::screen::ScreenManager;

#[test]
fn test_screen_detection() {
    let screens = ScreenManager::detect_screens();
    assert!(screens.is_ok());
    let screens = screens.unwrap();
    assert!(!screens.is_empty());
    assert!(screens.iter().any(|s| s.is_primary));
}

#[test]
fn test_primary_screen() {
    let primary = ScreenManager::get_primary_screen();
    assert!(primary.is_ok());
    let primary = primary.unwrap();
    assert!(primary.is_primary);
    assert!(primary.width > 0);
    assert!(primary.height > 0);
}

#[test]
fn test_screen_mapping() {
    let screen_id = ScreenManager::map_screen_number_to_id(1);
    assert!(screen_id.is_ok());
    let invalid = ScreenManager::map_screen_number_to_id(0);
    assert!(invalid.is_err());
    let invalid = ScreenManager::map_screen_number_to_id(10);
    assert!(invalid.is_err());
}

#[test]
fn test_desktop_bounds() {
    let bounds = ScreenManager::get_desktop_bounds();
    assert!(bounds.is_ok());
    let (_x, _y, width, height) = bounds.unwrap();
    assert!(width > 0);
    assert!(height > 0);
}

#[test]
fn test_find_screen_for_position() {
    let pos = Position::new(100, 100);
    let screen = ScreenManager::find_screen_for_position(pos);
    assert!(screen.is_ok());
    let screen = screen.unwrap();
    assert!(screen.contains(pos));
}

#[test]
fn test_screen_center() {
    let screens = ScreenManager::detect_screens().unwrap();
    if let Some(screen) = screens.first() {
        let center = ScreenManager::get_screen_center(screen.id);
        assert!(center.is_ok());
        let center = center.unwrap();
        assert!(screen.contains(center));
    }
}

#[test]
fn screen_lookups_exact() {
    assert_eq!(ScreenManager::get_desktop_bounds().unwrap(), (0, 0, 1920, 1080));
    assert_eq!(ScreenManager::get_screen_center(0).unwrap(), Position::with_screen(960, 540, 0));
    assert!(ScreenManager::get_screen_center(7).is_err());
    assert!(ScreenManager::get_screen_by_id(3).is_err());
    assert_eq!(ScreenManager::map_screen_number_to_id(1).unwrap(), 0);
    // Outside every screen: the primary one.
    assert_eq!(ScreenManager::find_screen_for_position(Position::new(-50, 4000)).unwrap().id, 0);
    assert!(ScreenManager::find_screen_for_position(Position::with_screen(1, 1, 9)).is_err());
    let two = ScreenManager::detect_screens_macos(true).unwrap();
    assert_eq!(two.len(), 2);
    assert_eq!(two[1].x, 1920);
    assert_eq!(ScreenManager::detect_screens_macos(false).unwrap().len(), 1);
}
