use game_of_life::cell::Cell;
use game_of_life::theme::{cell_paint, CellPaint, Style, Theme};
use game_of_life::universe::{random_cell, Universe};

#[test]
fn conway_rule_exact_cases() {
    // An alive cell survives with exactly 2 or 3 live neighbours.
    assert_eq!(Cell::Alive.calculate_next_iteration(2), Cell::Alive);
    assert_eq!(Cell::Alive.calculate_next_iteration(3), Cell::Alive);
    // Every other count kills it.
    for n in [0u8, 1, 4, 5, 6, 7, 8] {
        assert_eq!(Cell::Alive.calculate_next_iteration(n), Cell::Dead);
    }
    // A dead cell is born with exactly 3 live neighbours and stays dead otherwise.
    assert_eq!(Cell::Dead.calculate_next_iteration(3), Cell::Alive);
    for n in [0u8, 1, 2, 4, 5, 6, 7, 8] {
        assert_eq!(Cell::Dead.calculate_next_iteration(n), Cell::Dead);
    }
}

#[test]
fn cell_flip() {
    assert_eq!(Cell::Alive.flip(), Cell::Dead);
    assert_eq!(Cell::Dead.flip(), Cell::Alive);
    assert_eq!(Cell::Alive.flip().flip(), Cell::Alive);
}

#[test]
fn new_universe_is_all_dead() {
    let u = Universe::new(5, 4);
    assert_eq!(u.width(), 5);
    assert_eq!(u.height(), 4);
    for y in 0..4 {
        for x in 0..5 {
            assert_eq!(u.get(x, y), Cell::Dead);
        }
    }
}

#[test]
fn set_and_get_roundtrip() {
    let mut u = Universe::new(3, 3);
    u.set(2, 1, Cell::Alive);
    assert_eq!(u.get(2, 1), Cell::Alive);
    assert_eq!(u.get(1, 2), Cell::Dead);
    u.set(2, 1, Cell::Dead);
    assert_eq!(u.get(2, 1), Cell::Dead);
}

#[test]
fn fill_sets_every_cell() {
    let mut u = Universe::new(4, 3);
    u.fill(Cell::Alive);
    for y in 0..3 {
        for x in 0..4 {
            assert_eq!(u.get(x, y), Cell::Alive);
        }
    }
    u.fill(Cell::Dead);
    for y in 0..3 {
        for x in 0..4 {
            assert_eq!(u.get(x, y), Cell::Dead);
        }
    }
}

#[test]
fn invert_is_its_own_inverse() {
    let mut u = Universe::new(4, 4);
    u.set(0, 0, Cell::Alive);
    u.set(3, 1, Cell::Alive);
    u.set(2, 3, Cell::Alive);
    let before: Vec<Cell> = (0..4)
        .flat_map(|y| (0..4).map(move |x| (x, y)))
        .map(|(x, y)| u.get(x, y))
        .collect();

    u.invert();
    assert_eq!(u.get(0, 0), Cell::Dead);
    assert_eq!(u.get(1, 0), Cell::Alive);

    u.invert();
    let after: Vec<Cell> = (0..4)
        .flat_map(|y| (0..4).map(move |x| (x, y)))
        .map(|(x, y)| u.get(x, y))
        .collect();
    assert_eq!(before, after);
}

#[test]
fn resize_discards_content_and_yields_dead_grid() {
    let mut u = Universe::new(3, 3);
    u.fill(Cell::Alive);
    u.resize(5, 2);
    assert_eq!(u.width(), 5);
    assert_eq!(u.height(), 2);
    for y in 0..2 {
        for x in 0..5 {
            assert_eq!(u.get(x, y), Cell::Dead);
        }
    }
}

#[test]
fn resize_to_empty_grid() {
    let mut u = Universe::new(3, 3);
    u.resize(0, 7);
    assert_eq!(u.width(), 0);
    assert_eq!(u.height(), 7);
}

#[test]
fn advance_preserves_dimensions() {
    let mut u = Universe::new(7, 5);
    u.set(3, 2, Cell::Alive);
    u.set(4, 2, Cell::Alive);
    let next = u.advance_generation();
    assert_eq!(next.width(), 7);
    assert_eq!(next.height(), 5);
}

#[test]
fn advance_of_dead_grid_stays_dead() {
    let mut u = Universe::new(6, 6);
    u.fill(Cell::Alive);
    u.fill(Cell::Dead);
    let next = u.advance_generation();
    for y in 0..6 {
        for x in 0..6 {
            assert_eq!(next.get(x, y), Cell::Dead);
        }
    }
}

#[test]
fn three_neighbours_give_birth() {
    // Three live cells in an L around a dead corner cell.
    let mut u = Universe::new(3, 3);
    u.set(1, 0, Cell::Alive);
    u.set(0, 1, Cell::Alive);
    u.set(1, 1, Cell::Alive);
    let next = u.advance_generation();
    // (0,0) is dead with exactly 3 live neighbours: born.
    assert_eq!(next.get(0, 0), Cell::Alive);
    // The block of four survives (each has 3 neighbours).
    assert_eq!(next.get(1, 0), Cell::Alive);
    assert_eq!(next.get(0, 1), Cell::Alive);
    assert_eq!(next.get(1, 1), Cell::Alive);
}

#[test]
fn live_neighbour_count_is_bounded_not_wrapping() {
    // A live cell on the right edge must not count as a neighbour of the
    // left edge.
    let mut u = Universe::new(3, 1);
    u.set(2, 0, Cell::Alive);
    assert_eq!(u.live_neighbour_count(0, 0), 0);
    assert_eq!(u.live_neighbour_count(1, 0), 1);
}

#[test]
fn blinker_oscillates() {
    // A vertical blinker becomes horizontal after one generation.
    let mut u = Universe::new(5, 5);
    u.set(2, 1, Cell::Alive);
    u.set(2, 2, Cell::Alive);
    u.set(2, 3, Cell::Alive);
    let next = u.advance_generation();
    for y in 0..5 {
        for x in 0..5 {
            let expect = y == 2 && (1..=3).contains(&x);
            assert_eq!(next.get(x, y) == Cell::Alive, expect, "at ({x},{y})");
        }
    }
}

#[test]
fn plus_pattern_one_generation() {
    // 3x3 grid, centre and its 4 orthogonal neighbours alive: after one
    // generation every cell but the centre is alive.
    let mut u = Universe::new(3, 3);
    u.set(1, 1, Cell::Alive);
    u.set(1, 0, Cell::Alive);
    u.set(0, 1, Cell::Alive);
    u.set(2, 1, Cell::Alive);
    u.set(1, 2, Cell::Alive);
    let next = u.advance_generation();
    for y in 0..3 {
        for x in 0..3 {
            let expect = !(x == 1 && y == 1);
            assert_eq!(next.get(x, y) == Cell::Alive, expect, "at ({x},{y})");
        }
    }
}

#[test]
fn random_cell_is_decided_by_the_lowest_bit() {
    assert_eq!(random_cell(0), Cell::Dead);
    assert_eq!(random_cell(1), Cell::Alive);
    assert_eq!(random_cell(2), Cell::Dead);
    assert_eq!(random_cell(3), Cell::Alive);
    assert_eq!(random_cell(u32::MAX), Cell::Alive);
    assert_eq!(random_cell(u32::MAX - 1), Cell::Dead);
}

#[test]
fn fill_random_keeps_dimensions() {
    let mut u = Universe::new(8, 6);
    u.fill_random();
    assert_eq!(u.width(), 8);
    assert_eq!(u.height(), 6);
    // Every cell is still readable.
    for y in 0..6 {
        for x in 0..8 {
            let _ = u.get(x, y);
        }
    }
}

#[test]
fn theme_cycle_order_skips_bolus() {
    let mut t = Theme::Default;
    t.cycle();
    assert_eq!(t, Theme::Gruvbox);
    t.cycle();
    assert_eq!(t, Theme::Matrix);
    t.cycle();
    assert_eq!(t, Theme::Midnight);
    t.cycle();
    assert_eq!(t, Theme::Default);
}

#[test]
fn toggle_bolus_always_resets_to_default() {
    // The dedicated toggle never actually enters the special theme.
    let mut t = Theme::Default;
    t.toggle_bolus();
    assert_eq!(t, Theme::Default);
    let mut t = Theme::Matrix;
    t.toggle_bolus();
    assert_eq!(t, Theme::Default);
    let mut t = Theme::Bolus;
    t.toggle_bolus();
    assert_eq!(t, Theme::Default);
}

#[test]
fn styles_are_exact() {
    assert_eq!(
        Theme::Default.to_style(),
        Style { bg: 0x000000, fg: 0xFFFFFF, accent: 0x00E330 }
    );
    assert_eq!(
        Theme::Gruvbox.to_style(),
        Style { bg: 0x282828, fg: 0xEBDBB2, accent: 0xCC241D }
    );
    assert_eq!(
        Theme::Matrix.to_style(),
        Style { bg: 0x131721, fg: 0x32C603, accent: 0x0078F2 }
    );
    assert_eq!(
        Theme::Midnight.to_style(),
        Style { bg: 0x0D1017, fg: 0xFFFFFF, accent: 0xD65D0E }
    );
    // The special theme shows the default palette.
    assert_eq!(Theme::Bolus.to_style(), Theme::Default.to_style());
    assert_eq!(Style::new(1, 2, 3), Style { bg: 1, fg: 2, accent: 3 });
    assert_eq!(Style::default(), Theme::Default.to_style());
}

#[test]
fn cell_paint_decisions() {
    // Ordinary theme: foreground for live, background for dead.
    assert_eq!(
        cell_paint(Theme::Gruvbox, 4, 9, Cell::Alive),
        CellPaint::Rgb(0xEBDBB2)
    );
    assert_eq!(
        cell_paint(Theme::Gruvbox, 4, 9, Cell::Dead),
        CellPaint::Rgb(0x282828)
    );
    // Midnight colours live cells by position; channels saturate at 255.
    assert_eq!(
        cell_paint(Theme::Midnight, 4, 9, Cell::Alive),
        CellPaint::Rgb(0x040964)
    );
    assert_eq!(
        cell_paint(Theme::Midnight, 300, 2, Cell::Alive),
        CellPaint::Rgb(0xFF0264)
    );
    assert_eq!(
        cell_paint(Theme::Midnight, 1, 1, Cell::Dead),
        CellPaint::Rgb(0x0D1017)
    );
    // The special theme draws live cells as the sprite over a black board.
    assert_eq!(cell_paint(Theme::Bolus, 0, 0, Cell::Alive), CellPaint::Sprite);
    assert_eq!(cell_paint(Theme::Bolus, 0, 0, Cell::Dead), CellPaint::Rgb(0x000000));
}
