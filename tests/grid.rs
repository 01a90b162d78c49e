use mouseless_core::grid::{GridCellBounds, GridManager};
use mouseless_core::models::{AnimationType, GridConfig, Position, ScreenBounds};
use std::collections::HashSet;

fn create_test_screen_bounds() -> ScreenBounds {
    ScreenBounds { id: 1, x: 0, y: 0, width: 1920, height: 1080, is_primary: true }
}

fn create_test_grid_config() -> GridConfig {
    GridConfig { rows: 3, columns: 3, show_labels: true, animation_style: AnimationType::Smooth }
}

#[test]
fn test_grid_manager_creation() {
    let config = create_test_grid_config();
    let screen_bounds = create_test_screen_bounds();
    let manager = GridManager::new(config, screen_bounds).unwrap();
    assert_eq!(manager.get_cells().len(), 9);
    assert_eq!(manager.get_config().rows, 3);
    assert_eq!(manager.get_config().columns, 3);
}

#[test]
fn test_grid_cell_calculations() {
    let manager = GridManager::new(create_test_grid_config(), create_test_screen_bounds()).unwrap();
    let cells = manager.get_cells();
    let first_cell = &cells[0];
    assert_eq!(first_cell.row, 0);
    assert_eq!(first_cell.column, 0);
    assert_eq!(first_cell.bounds.x, 0);
    assert_eq!(first_cell.bounds.y, 0);
    assert_eq!(first_cell.bounds.width, 640);
    assert_eq!(first_cell.bounds.height, 360);
    assert_eq!(first_cell.center_position.x, 320);
    assert_eq!(first_cell.center_position.y, 180);
}

#[test]
fn test_key_combinations() {
    let manager = GridManager::new(create_test_grid_config(), create_test_screen_bounds()).unwrap();
    let mut key_combinations = HashSet::new();
    for cell in manager.get_cells() {
        assert_eq!(cell.key_combination.len(), 2);
        assert!(key_combinations.insert(cell.key_combination.clone()));
    }
    assert_eq!(key_combinations.len(), 9);
}

#[test]
fn test_get_cell_by_keys() {
    let manager = GridManager::new(create_test_grid_config(), create_test_screen_bounds()).unwrap();
    let first_cell = &manager.get_cells()[0];
    let key_combination = first_cell.key_combination.clone();
    let found_cell = manager.get_cell_by_keys(&key_combination).unwrap();
    assert_eq!(found_cell.row, first_cell.row);
    assert_eq!(found_cell.column, first_cell.column);
}

#[test]
fn test_find_cell_at_position() {
    let manager = GridManager::new(create_test_grid_config(), create_test_screen_bounds()).unwrap();
    let cell = manager.find_cell_at_position(Position::new(100, 100)).unwrap();
    assert_eq!(cell.row, 0);
    assert_eq!(cell.column, 0);
    let center_cell = manager.find_cell_at_position(Position::new(960, 540)).unwrap();
    assert_eq!(center_cell.row, 1);
    assert_eq!(center_cell.column, 1);
}

#[test]
fn test_large_grid() {
    let config = GridConfig { rows: 5, columns: 6, show_labels: true, animation_style: AnimationType::Smooth };
    let manager = GridManager::new(config, create_test_screen_bounds()).unwrap();
    assert_eq!(manager.get_cells().len(), 30);
    let mut key_combinations = HashSet::new();
    for cell in manager.get_cells() {
        assert!(key_combinations.insert(cell.key_combination.clone()));
    }
    assert_eq!(key_combinations.len(), 30);
}

#[test]
fn test_grid_bounds_contain_position() {
    let bounds = GridCellBounds { x: 100, y: 100, width: 200, height: 150 };
    assert!(bounds.contains(Position::new(150, 150)));
    assert!(bounds.contains(Position::new(100, 100)));
    assert!(!bounds.contains(Position::new(300, 250)));
    assert!(!bounds.contains(Position::new(50, 50)));
}

#[test]
fn test_grid_cell_center() {
    let bounds = GridCellBounds { x: 100, y: 100, width: 200, height: 150 };
    let center = bounds.center();
    assert_eq!(center.x, 200);
    assert_eq!(center.y, 175);
}

#[test]
fn test_key_combination_patterns() {
    let manager = GridManager::new(create_test_grid_config(), create_test_screen_bounds()).unwrap();
    for cell in manager.get_cells() {
        assert_eq!(
            cell.key_combination.len(),
            2,
            "Key combination '{}' should be exactly 2 characters",
            cell.key_combination
        );
        let first_char = cell.key_combination.chars().next().unwrap();
        assert!(
            ['a', 's', 'd', 'f', 'g', 'h', 'j', 'k', 'l'].contains(&first_char),
            "First character '{}' should be from home row",
            first_char
        );
        let second_char = cell.key_combination.chars().nth(1).unwrap();
        assert!(
            ['q', 'w', 'e', 'r', 't', 'y', 'u', 'i', 'o', 'p'].contains(&second_char),
            "Second character '{}' should be from top row",
            second_char
        );
    }
}

#[test]
fn test_comprehensive_grid_functionality() {
    let test_cases = vec![(2, 2, 4), (3, 3, 9), (4, 4, 16), (3, 5, 15)];
    let screen_bounds = create_test_screen_bounds();
    for (rows, columns, expected_cells) in test_cases {
        let config = GridConfig { rows, columns, show_labels: true, animation_style: AnimationType::Smooth };
        let manager = GridManager::new(config, screen_bounds.clone()).unwrap();
        let cells = manager.get_cells();
        assert_eq!(cells.len(), expected_cells, "{}x{} grid should have {} cells", rows, columns, expected_cells);
        let mut key_combinations = HashSet::new();
        for cell in cells {
            assert!(
                key_combinations.insert(cell.key_combination.clone()),
                "Duplicate key combination: {}",
                cell.key_combination
            );
        }
        if let Some(first_cell) = manager.get_cells().first() {
            let key_combo = &first_cell.key_combination;
            let found_cell = manager.get_cell_by_keys(key_combo).unwrap();
            assert_eq!(found_cell.key_combination, *key_combo);
            assert_eq!(found_cell.center_position, first_cell.center_position);
        }
    }
}

#[test]
fn grid_allocation_order_and_secondary_alphabet() {
    let config = GridConfig { rows: 10, columns: 10, show_labels: true, animation_style: AnimationType::Smooth };
    let manager = GridManager::new(config, create_test_screen_bounds()).unwrap();
    let cells = manager.get_cells();
    assert_eq!(cells.len(), 100);
    assert_eq!(cells[0].key_combination, "aq");
    assert_eq!(cells[1].key_combination, "aw");
    assert_eq!(cells[10].key_combination, "sq");
    assert_eq!(cells[89].key_combination, "lp");
    assert_eq!(cells[90].key_combination, "z1");
    assert_eq!(cells[99].key_combination, "z0");
    let found = manager.get_cell_by_keys("z1").unwrap();
    assert_eq!((found.row, found.column), (9, 0));
}

#[test]
fn grid_largest_size_and_too_large() {
    let config = GridConfig { rows: 16, columns: 10, show_labels: true, animation_style: AnimationType::Smooth };
    let manager = GridManager::new(config, create_test_screen_bounds()).unwrap();
    assert_eq!(manager.get_cells().len(), 160);
    assert_eq!(manager.get_cells()[159].key_combination, "m0");
    let too_big = GridConfig { rows: 7, columns: 23, show_labels: true, animation_style: AnimationType::Smooth };
    assert!(GridManager::new(too_big, create_test_screen_bounds()).is_err());
    let empty = GridConfig { rows: 0, columns: 3, show_labels: true, animation_style: AnimationType::Smooth };
    assert!(GridManager::new(empty, create_test_screen_bounds()).is_err());
}

#[test]
fn grid_lookup_misses() {
    let manager = GridManager::new(create_test_grid_config(), create_test_screen_bounds()).unwrap();
    assert!(manager.get_cell_by_keys("lp").is_none());
    assert!(manager.get_cell_by_keys("qa").is_none());
    assert!(manager.get_cell_by_keys("a").is_none());
    assert!(manager.find_cell_at_position(Position::new(1920, 10)).is_none());
    assert!(manager.find_cell_at_position(Position::new(-1, 10)).is_none());
}

#[test]
fn grid_centers_found_again() {
    let config = GridConfig { rows: 4, columns: 7, show_labels: false, animation_style: AnimationType::Linear };
    let screen = ScreenBounds { id: 2, x: -300, y: 50, width: 1000, height: 700, is_primary: false };
    let manager = GridManager::new(config, screen).unwrap();
    for cell in manager.get_cells() {
        assert!(cell.bounds.contains(cell.center_position));
        let by_position = manager.find_cell_at_position(cell.center_position).unwrap();
        let by_keys = manager.get_cell_by_keys(&cell.key_combination).unwrap();
        assert_eq!((by_position.row, by_position.column), (cell.row, cell.column));
        assert_eq!((by_keys.row, by_keys.column), (cell.row, cell.column));
    }
    assert_eq!(manager.get_cell_center(1, 2), Some(manager.get_cells()[9].center_position));
    assert_eq!(manager.get_cell_center(4, 0), None);
}

#[test]
fn grid_update_keeps_old_grid_on_error() {
    let mut manager = GridManager::new(create_test_grid_config(), create_test_screen_bounds()).unwrap();
    let bad = GridConfig { rows: 20, columns: 20, show_labels: true, animation_style: AnimationType::Smooth };
    assert!(manager.update_config(bad).is_err());
    assert_eq!(manager.get_cells().len(), 9);
    assert_eq!(manager.get_config().rows, 3);
    let good = GridConfig { rows: 2, columns: 4, show_labels: true, animation_style: AnimationType::Smooth };
    assert!(manager.update_config(good).is_ok());
    assert_eq!(manager.get_cells().len(), 8);
    let screen = ScreenBounds { id: 3, x: 1920, y: 0, width: 800, height: 600, is_primary: false };
    assert!(manager.update_screen_bounds(screen).is_ok());
    assert_eq!(manager.get_cells()[0].bounds.x, 1920);
    assert_eq!(manager.get_cells()[0].bounds.width, 200);
}
