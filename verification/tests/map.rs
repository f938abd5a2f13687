use blue_boy_adventure::tiles::map_text::parse_row;
use blue_boy_adventure::tiles::map_text::split_lines;
use blue_boy_adventure::tiles::tile::MapError;
use blue_boy_adventure::tiles::tile::TileData;
use blue_boy_adventure::tiles::tile::TileManager;

fn row_of(tile: u32) -> String {
    vec![tile.to_string(); 50].join(" ")
}

fn grid_of(tile: u32) -> String {
    let mut text = String::new();
    for _ in 0..50 {
        text.push_str(&row_of(tile));
        text.push('\n');
    }
    text
}

#[test]
fn the_tile_table_marks_water_wall_and_tree() {
    let tiles = TileManager::tile_table();
    assert_eq!(tiles.len(), 42);
    for (id, tile) in tiles.iter().enumerate() {
        let expected = (12..=25).contains(&id) || id == 40 || id == 41;
        assert_eq!(tile.is_collidable, expected, "tile {}", id);
    }
    assert!(!TileData::default().is_collidable);
}

#[test]
fn a_whole_grid_is_read() {
    let mut text = String::new();
    for row in 0..50 {
        let cells: Vec<String> = (0..50).map(|col| ((row + col) % 42).to_string()).collect();
        text.push_str(&cells.join(" "));
        text.push('\n');
    }
    let world = TileManager::new(text.as_bytes()).unwrap();
    assert_eq!(world.tiles.len(), 42);
    assert_eq!(world.map_tile_num.len(), 50);
    for row in 0..50 {
        assert_eq!(world.map_tile_num[row].len(), 50);
        for col in 0..50 {
            assert_eq!(world.map_tile_num[row][col], ((row + col) % 42) as u32);
        }
    }
}

#[test]
fn blanks_of_any_kind_separate_numbers() {
    let mut text = grid_of(10);
    text = text.replacen("10 10", "  10\t\t10", 1);
    text = text.replace('\n', " \r\n");
    let world = TileManager::new(text.as_bytes()).unwrap();
    assert_eq!(world.map_tile_num[0][0], 10);
    assert_eq!(world.map_tile_num[49][49], 10);
}

#[test]
fn what_follows_the_last_row_is_not_read() {
    let mut text = grid_of(10);
    text.push_str("this is not a row\n");
    assert!(TileManager::new(text.as_bytes()).is_ok());
    let text = grid_of(10);
    assert!(TileManager::new(text.trim_end().as_bytes()).is_ok());
}

#[test]
fn a_short_text_misses_a_row() {
    let mut text = String::new();
    for _ in 0..49 {
        text.push_str(&row_of(10));
        text.push('\n');
    }
    assert_eq!(TileManager::new(text.as_bytes()).err(), Some(MapError::WrongWidth(49)));
    let text = text.trim_end();
    assert_eq!(TileManager::new(text.as_bytes()).err(), Some(MapError::MissingRow(49)));
    assert_eq!(TileManager::new(b"").err(), Some(MapError::WrongWidth(0)));
}

#[test]
fn a_row_with_a_word_is_refused() {
    let text = grid_of(10).replacen("10 10", "10 grass", 1);
    assert_eq!(TileManager::new(text.as_bytes()).err(), Some(MapError::BadNumber(0)));
    let mut lines: Vec<String> = grid_of(10).lines().map(|line| line.to_string()).collect();
    lines[7] = lines[7].replacen("10", "-1", 1);
    let text = lines.join("\n");
    assert_eq!(TileManager::new(text.as_bytes()).err(), Some(MapError::BadNumber(7)));
}

#[test]
fn a_number_too_large_for_32_bits_is_refused() {
    let text = grid_of(10).replacen("10", "4294967296", 1);
    assert_eq!(TileManager::new(text.as_bytes()).err(), Some(MapError::BadNumber(0)));
    let text = grid_of(10).replacen("10", "4294967295", 1);
    assert_eq!(TileManager::new(text.as_bytes()).err(), Some(MapError::UnknownTile(0)));
}

#[test]
fn a_row_of_the_wrong_width_is_refused() {
    let mut lines: Vec<String> = grid_of(10).lines().map(|line| line.to_string()).collect();
    lines[3].push_str(" 10");
    let text = lines.join("\n");
    assert_eq!(TileManager::new(text.as_bytes()).err(), Some(MapError::WrongWidth(3)));
    let mut lines: Vec<String> = grid_of(10).lines().map(|line| line.to_string()).collect();
    lines[4] = vec!["10"; 49].join(" ");
    let text = lines.join("\n");
    assert_eq!(TileManager::new(text.as_bytes()).err(), Some(MapError::WrongWidth(4)));
}

#[test]
fn an_unknown_tile_is_refused() {
    let mut lines: Vec<String> = grid_of(10).lines().map(|line| line.to_string()).collect();
    lines[20] = lines[20].replacen("10", "42", 1);
    let text = lines.join("\n");
    assert_eq!(TileManager::new(text.as_bytes()).err(), Some(MapError::UnknownTile(20)));
    lines[20] = lines[20].replacen("42", "41", 1);
    let text = lines.join("\n");
    assert!(TileManager::new(text.as_bytes()).is_ok());
}

#[test]
fn the_first_row_at_fault_is_named() {
    let mut lines: Vec<String> = grid_of(10).lines().map(|line| line.to_string()).collect();
    lines[9] = lines[9].replacen("10", "99", 1);
    lines[5] = "10 10".to_string();
    lines[30] = "x".to_string();
    let text = lines.join("\n");
    assert_eq!(TileManager::new(text.as_bytes()).err(), Some(MapError::WrongWidth(5)));
}

#[test]
fn a_refused_text_leaves_the_grid_as_it_was() {
    let mut world = TileManager::new(grid_of(10).as_bytes()).unwrap();
    let fault = world.load_map(grid_of(77).as_bytes());
    assert_eq!(fault, Err(MapError::UnknownTile(0)));
    assert_eq!(world.map_tile_num[0][0], 10);
    assert_eq!(world.load_map(grid_of(11).as_bytes()), Ok(()));
    assert_eq!(world.map_tile_num[0][0], 11);
    assert_eq!(world.tiles.len(), 42);
}

#[test]
fn a_grid_of_values_is_checked() {
    assert!(TileManager::from_grid(vec![vec![10; 50]; 50]).is_some());
    assert!(TileManager::from_grid(vec![vec![10; 50]; 49]).is_none());
    assert!(TileManager::from_grid(vec![vec![10; 49]; 50]).is_none());
    assert!(TileManager::from_grid(vec![vec![42; 50]; 50]).is_none());
    assert!(TileManager::row_fits(&vec![41; 50], 42));
    assert!(!TileManager::row_fits(&vec![41; 50], 41));
}

#[test]
fn lines_are_the_pieces_between_line_feeds() {
    let lines = split_lines(b"1 2\n\n3");
    assert_eq!(lines, vec![b"1 2".to_vec(), Vec::new(), b"3".to_vec()]);
    assert_eq!(split_lines(b""), vec![Vec::<u8>::new()]);
    assert_eq!(split_lines(b"7\n"), vec![b"7".to_vec(), Vec::new()]);
}

#[test]
fn a_row_is_its_numbers() {
    assert_eq!(parse_row(&b"1 20 300".to_vec()), Some(vec![1, 20, 300]));
    assert_eq!(parse_row(&b"  007\t8 \r".to_vec()), Some(vec![7, 8]));
    assert_eq!(parse_row(&b"".to_vec()), Some(Vec::new()));
    assert_eq!(parse_row(&b"4294967295".to_vec()), Some(vec![4294967295]));
    assert_eq!(parse_row(&b"4294967296".to_vec()), None);
    assert_eq!(parse_row(&b"1,2".to_vec()), None);
    assert_eq!(parse_row(&b"+5".to_vec()), None);
}

#[test]
fn cells_outside_the_grid_block() {
    let world = TileManager::from_grid(vec![vec![10; 50]; 50]).unwrap();
    assert!(!world.is_cell_blocked(0, 0));
    assert!(!world.is_cell_blocked(49, 49));
    assert!(world.is_cell_blocked(50, 0));
    assert!(world.is_cell_blocked(0, 50));
    assert!(!world.is_point_blocked(0, 0));
    assert!(!world.is_point_blocked(2399, 2399));
    assert!(world.is_point_blocked(2400, 0));
    assert!(world.is_point_blocked(-1, 0));
    assert!(world.is_point_blocked(0, -1));
    let mut map = vec![vec![10; 50]; 50];
    map[2][3] = 12;
    let world = TileManager::from_grid(map).unwrap();
    assert!(world.is_cell_blocked(2, 3));
    assert!(world.is_point_blocked(3 * 48, 2 * 48));
    assert!(world.is_point_blocked(3 * 48 + 47, 2 * 48 + 47));
    assert!(!world.is_point_blocked(4 * 48, 2 * 48));
}
