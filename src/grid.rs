//! The grid allocator: splits a screen into `rows x columns` cells and gives
//! each cell a two-key combination.
//!
//! Combinations are handed out in a fixed order: a home-row key followed by
//! a top-row key (`aq`, `aw`, ..., `lp`: 90 of them), then a bottom-row key
//! followed by a digit (`z1`, ..., `m0`: 70 more). Cell `k` in row-major
//! order gets the `k`-th combination, so looking a combination up is an
//! index computation.

use vstd::prelude::*;
use vstd::arithmetic::div_mod::lemma_fundamental_div_mod_converse;
use vstd::arithmetic::div_mod::lemma_fundamental_div_mod;
use vstd::arithmetic::mul::lemma_mul_inequality;

use crate::error::{invalid_input_error, MouselessError, Result};
use crate::models::{rect_contains, screen_in_range, GridConfig, Position, ScreenBounds};
use crate::text::push_char;
use vstd::string::StrSliceExecFns;

verus! {

/// Number of primary combinations (home row x top row).
pub const PRIMARY_COMBINATIONS: usize = 90;

/// Number of combinations of both alphabets together.
pub const MAX_COMBINATIONS: usize = 160;

/// The home-row keys, in allocation order.
pub open spec fn home_row_key(i: int) -> char {
    if i == 0 { 'a' } else if i == 1 { 's' } else if i == 2 { 'd' } else if i == 3 { 'f' }
    else if i == 4 { 'g' } else if i == 5 { 'h' } else if i == 6 { 'j' } else if i == 7 { 'k' }
    else { 'l' }
}

/// The top-row keys, in allocation order.
pub open spec fn top_row_key(j: int) -> char {
    if j == 0 { 'q' } else if j == 1 { 'w' } else if j == 2 { 'e' } else if j == 3 { 'r' }
    else if j == 4 { 't' } else if j == 5 { 'y' } else if j == 6 { 'u' } else if j == 7 { 'i' }
    else if j == 8 { 'o' } else { 'p' }
}

/// The bottom-row keys of the secondary alphabet, in allocation order.
pub open spec fn bottom_row_key(i: int) -> char {
    if i == 0 { 'z' } else if i == 1 { 'x' } else if i == 2 { 'c' } else if i == 3 { 'v' }
    else if i == 4 { 'b' } else if i == 5 { 'n' } else { 'm' }
}

/// The digit keys of the secondary alphabet, in allocation order.
pub open spec fn digit_key(j: int) -> char {
    if j == 0 { '1' } else if j == 1 { '2' } else if j == 2 { '3' } else if j == 3 { '4' }
    else if j == 4 { '5' } else if j == 5 { '6' } else if j == 6 { '7' } else if j == 7 { '8' }
    else if j == 8 { '9' } else { '0' }
}

pub open spec fn home_row_index(c: char) -> int {
    if c == 'a' { 0 } else if c == 's' { 1 } else if c == 'd' { 2 } else if c == 'f' { 3 }
    else if c == 'g' { 4 } else if c == 'h' { 5 } else if c == 'j' { 6 } else if c == 'k' { 7 }
    else if c == 'l' { 8 } else { -1 }
}

pub open spec fn top_row_index(c: char) -> int {
    if c == 'q' { 0 } else if c == 'w' { 1 } else if c == 'e' { 2 } else if c == 'r' { 3 }
    else if c == 't' { 4 } else if c == 'y' { 5 } else if c == 'u' { 6 } else if c == 'i' { 7 }
    else if c == 'o' { 8 } else if c == 'p' { 9 } else { -1 }
}

pub open spec fn bottom_row_index(c: char) -> int {
    if c == 'z' { 0 } else if c == 'x' { 1 } else if c == 'c' { 2 } else if c == 'v' { 3 }
    else if c == 'b' { 4 } else if c == 'n' { 5 } else if c == 'm' { 6 } else { -1 }
}

pub open spec fn digit_index(c: char) -> int {
    if c == '1' { 0 } else if c == '2' { 1 } else if c == '3' { 2 } else if c == '4' { 3 }
    else if c == '5' { 4 } else if c == '6' { 5 } else if c == '7' { 6 } else if c == '8' { 7 }
    else if c == '9' { 8 } else if c == '0' { 9 } else { -1 }
}

/// The `k`-th combination of the allocation order.
pub open spec fn combo_at(k: int) -> Seq<char> {
    if k < 90 {
        seq![home_row_key(k / 10), top_row_key(k % 10)]
    } else {
        seq![bottom_row_key((k - 90) / 10), digit_key((k - 90) % 10)]
    }
}

/// Where a string stands in the allocation order, or -1 if it is no
/// combination at all.
pub open spec fn combo_index(s: Seq<char>) -> int {
    if s.len() != 2 {
        -1
    } else if home_row_index(s[0]) >= 0 && top_row_index(s[1]) >= 0 {
        10 * home_row_index(s[0]) + top_row_index(s[1])
    } else if bottom_row_index(s[0]) >= 0 && digit_index(s[1]) >= 0 {
        90 + 10 * bottom_row_index(s[0]) + digit_index(s[1])
    } else {
        -1
    }
}

proof fn lemma_key_rows(i: int, j: int)
    requires
        0 <= j < 10,
    ensures
        0 <= i < 9 ==> home_row_index(home_row_key(i)) == i,
        top_row_index(top_row_key(j)) == j,
        0 <= i < 7 ==> bottom_row_index(bottom_row_key(i)) == i,
        0 <= i < 7 ==> home_row_index(bottom_row_key(i)) == -1,
        digit_index(digit_key(j)) == j,
{
}

/// Each combination is found again at its own place in the order.
pub proof fn lemma_combo_index(k: int)
    requires
        0 <= k < 160,
    ensures
        combo_index(combo_at(k)) == k,
{
    if k < 90 {
        lemma_fundamental_div_mod(k, 10);
        lemma_key_rows(k / 10, k % 10);
    } else {
        lemma_fundamental_div_mod(k - 90, 10);
        lemma_key_rows((k - 90) / 10, (k - 90) % 10);
    }
}

proof fn lemma_key_rows_inverse(a: char, b: char)
    ensures
        home_row_index(a) >= 0 ==> 0 <= home_row_index(a) < 9 && home_row_key(home_row_index(a)) == a,
        top_row_index(b) >= 0 ==> 0 <= top_row_index(b) < 10 && top_row_key(top_row_index(b)) == b,
        bottom_row_index(a) >= 0 ==> 0 <= bottom_row_index(a) < 7 && bottom_row_key(bottom_row_index(a)) == a,
        digit_index(b) >= 0 ==> 0 <= digit_index(b) < 10 && digit_key(digit_index(b)) == b,
{
}

/// A string that has a place in the allocation order is the combination
/// found at that place.
pub proof fn lemma_combo_at_index(s: Seq<char>)
    requires
        combo_index(s) >= 0,
    ensures
        0 <= combo_index(s) < 160,
        combo_at(combo_index(s)) == s,
{
    let k = combo_index(s);
    lemma_key_rows_inverse(s[0], s[1]);
    if home_row_index(s[0]) >= 0 && top_row_index(s[1]) >= 0 {
        lemma_fundamental_div_mod_converse(k, 10, home_row_index(s[0]), top_row_index(s[1]));
    } else {
        lemma_fundamental_div_mod_converse(k - 90, 10, bottom_row_index(s[0]), digit_index(s[1]));
    }
    assert(combo_at(k) =~= s);
}

/// No two places of the allocation order hold the same combination.
pub proof fn lemma_combos_distinct(k1: int, k2: int)
    requires
        0 <= k1 < 160,
        0 <= k2 < 160,
        k1 != k2,
    ensures
        combo_at(k1) != combo_at(k2),
{
    lemma_combo_index(k1);
    lemma_combo_index(k2);
}

fn home_row_key_at(i: usize) -> (r: char)
    requires
        i < 9,
    ensures
        r == home_row_key(i as int),
{
    match i {
        0 => 'a',
        1 => 's',
        2 => 'd',
        3 => 'f',
        4 => 'g',
        5 => 'h',
        6 => 'j',
        7 => 'k',
        _ => 'l',
    }
}

fn top_row_key_at(j: usize) -> (r: char)
    requires
        j < 10,
    ensures
        r == top_row_key(j as int),
{
    match j {
        0 => 'q',
        1 => 'w',
        2 => 'e',
        3 => 'r',
        4 => 't',
        5 => 'y',
        6 => 'u',
        7 => 'i',
        8 => 'o',
        _ => 'p',
    }
}

fn bottom_row_key_at(i: usize) -> (r: char)
    requires
        i < 7,
    ensures
        r == bottom_row_key(i as int),
{
    match i {
        0 => 'z',
        1 => 'x',
        2 => 'c',
        3 => 'v',
        4 => 'b',
        5 => 'n',
        _ => 'm',
    }
}

fn digit_key_at(j: usize) -> (r: char)
    requires
        j < 10,
    ensures
        r == digit_key(j as int),
{
    match j {
        0 => '1',
        1 => '2',
        2 => '3',
        3 => '4',
        4 => '5',
        5 => '6',
        6 => '7',
        7 => '8',
        8 => '9',
        _ => '0',
    }
}

/// The `k`-th combination as a string.
fn combination_at(k: usize) -> (r: String)
    requires
        k < MAX_COMBINATIONS,
    ensures
        r@ == combo_at(k as int),
{
    let (first, second) = if k < PRIMARY_COMBINATIONS {
        (home_row_key_at(k / 10), top_row_key_at(k % 10))
    } else {
        (bottom_row_key_at((k - 90) / 10), digit_key_at((k - 90) % 10))
    };
    let mut s = String::new();
    push_char(&mut s, first);
    push_char(&mut s, second);
    proof {
        assert(s@ =~= combo_at(k as int));
    }
    s
}

fn home_row_index_of(c: char) -> (r: i64)
    ensures
        r == home_row_index(c),
{
    match c {
        'a' => 0,
        's' => 1,
        'd' => 2,
        'f' => 3,
        'g' => 4,
        'h' => 5,
        'j' => 6,
        'k' => 7,
        'l' => 8,
        _ => -1,
    }
}

fn top_row_index_of(c: char) -> (r: i64)
    ensures
        r == top_row_index(c),
{
    match c {
        'q' => 0,
        'w' => 1,
        'e' => 2,
        'r' => 3,
        't' => 4,
        'y' => 5,
        'u' => 6,
        'i' => 7,
        'o' => 8,
        'p' => 9,
        _ => -1,
    }
}

fn bottom_row_index_of(c: char) -> (r: i64)
    ensures
        r == bottom_row_index(c),
{
    match c {
        'z' => 0,
        'x' => 1,
        'c' => 2,
        'v' => 3,
        'b' => 4,
        'n' => 5,
        'm' => 6,
        _ => -1,
    }
}

fn digit_index_of(c: char) -> (r: i64)
    ensures
        r == digit_index(c),
{
    match c {
        '1' => 0,
        '2' => 1,
        '3' => 2,
        '4' => 3,
        '5' => 4,
        '6' => 5,
        '7' => 6,
        '8' => 7,
        '9' => 8,
        '0' => 9,
        _ => -1,
    }
}

/// Where `s` stands in the allocation order, or -1.
fn combination_index(s: &str) -> (r: i64)
    ensures
        r == combo_index(s@),
{
    if s.unicode_len() != 2 {
        return -1;
    }
    let first = s.get_char(0);
    let second = s.get_char(1);
    let h = home_row_index_of(first);
    let t = top_row_index_of(second);
    if h >= 0 && t >= 0 {
        return 10 * h + t;
    }
    let b = bottom_row_index_of(first);
    let d = digit_index_of(second);
    if b >= 0 && d >= 0 {
        90 + 10 * b + d
    } else {
        -1
    }
}


/// The bounds of one grid cell.
#[derive(Debug, Clone, Copy, PartialEq, Eq, Structural)]
pub struct GridCellBounds {
    pub x: i32,
    pub y: i32,
    pub width: u32,
    pub height: u32,
}

impl GridCellBounds {
    pub open spec fn contains_spec(&self, p: Position) -> bool {
        rect_contains(self.x as int, self.y as int, self.width as int, self.height as int, p.x as int, p.y as int)
    }

    /// The middle of the cell, `(x + width / 2, y + height / 2)`.
    pub fn center(&self) -> (r: Position)
        requires
            crate::models::rect_center_fits(self.x as int, self.y as int, self.width as int, self.height as int),
        ensures
            r.x == self.x + self.width / 2,
            r.y == self.y + self.height / 2,
            r.screen_id is None,
    {
        Position::new(
            (self.x as i64 + (self.width / 2) as i64) as i32,
            (self.y as i64 + (self.height / 2) as i64) as i32,
        )
    }

    /// Half-open containment: the right and bottom edges are outside.
    pub fn contains(&self, position: Position) -> (r: bool)
        ensures
            r == self.contains_spec(position),
    {
        let px = position.x as i64;
        let py = position.y as i64;
        let left = self.x as i64;
        let top = self.y as i64;
        px >= left && px < left + self.width as i64 && py >= top && py < top + self.height as i64
    }
}

/// One cell of the grid, with its place, bounds, key combination and center.
#[derive(Debug, Clone)]
pub struct GridCell {
    pub row: u32,
    pub column: u32,
    pub bounds: GridCellBounds,
    pub key_combination: String,
    pub center_position: Position,
}

/// Whether a grid shape can be allocated: at least one row and one column,
/// and no more cells than there are combinations.
pub open spec fn valid_grid(config: GridConfig) -> bool {
    config.rows > 0 && config.columns > 0 && config.rows * config.columns <= 160
}

pub open spec fn cell_width(config: GridConfig, screen: ScreenBounds) -> int {
    screen.width as int / config.columns as int
}

pub open spec fn cell_height(config: GridConfig, screen: ScreenBounds) -> int {
    screen.height as int / config.rows as int
}

/// What the `k`-th cell (row-major) of the grid is.
pub open spec fn is_grid_cell(c: GridCell, config: GridConfig, screen: ScreenBounds, k: int) -> bool {
    let row = k / config.columns as int;
    let col = k % config.columns as int;
    let w = cell_width(config, screen);
    let h = cell_height(config, screen);
    &&& c.row == row
    &&& c.column == col
    &&& c.bounds.width == w
    &&& c.bounds.height == h
    &&& c.bounds.x == screen.x + col * w
    &&& c.bounds.y == screen.y + row * h
    &&& c.center_position == (Position {
        x: (screen.x + col * w + w / 2) as i32,
        y: (screen.y + row * h + h / 2) as i32,
        screen_id: None,
    })
    &&& c.center_position.x == screen.x + col * w + w / 2
    &&& c.center_position.y == screen.y + row * h + h / 2
    &&& c.key_combination@ == combo_at(k)
}

/// The whole cell table of a grid shape on a screen.
pub open spec fn is_grid(cells: Seq<GridCell>, config: GridConfig, screen: ScreenBounds) -> bool {
    &&& cells.len() == config.rows * config.columns
    &&& forall|k: int| 0 <= k < cells.len() ==> #[trigger] is_grid_cell(cells[k], config, screen, k)
}

proof fn lemma_cell_in_screen(config: GridConfig, screen: ScreenBounds, row: int, col: int)
    requires
        valid_grid(config),
        0 <= row < config.rows,
        0 <= col < config.columns,
    ensures
        0 <= col * cell_width(config, screen),
        col * cell_width(config, screen) + cell_width(config, screen) <= screen.width,
        0 <= row * cell_height(config, screen),
        row * cell_height(config, screen) + cell_height(config, screen) <= screen.height,
{
    let w = cell_width(config, screen);
    let h = cell_height(config, screen);
    lemma_fundamental_div_mod(screen.width as int, config.columns as int);
    lemma_fundamental_div_mod(screen.height as int, config.rows as int);
    lemma_mul_inequality(col + 1, config.columns as int, w);
    lemma_mul_inequality(row + 1, config.rows as int, h);
    assert(0 <= col * w) by (nonlinear_arith)
        requires
            0 <= col,
            0 <= w,
    ;
    assert(0 <= row * h) by (nonlinear_arith)
        requires
            0 <= row,
            0 <= h,
    ;
    assert((col + 1) * w == col * w + w) by (nonlinear_arith);
    assert((row + 1) * h == row * h + h) by (nonlinear_arith);
    assert(config.columns as int * w == w * config.columns as int) by (nonlinear_arith);
    assert(config.rows as int * h == h * config.rows as int) by (nonlinear_arith);
}

/// Lays out the cells of `config` on `screen`, row by row.
fn calculate_grid(config: &GridConfig, screen: &ScreenBounds) -> (r: Result<Vec<GridCell>>)
    requires
        screen_in_range(*screen),
    ensures
        match r {
            Ok(cells) => valid_grid(*config) && is_grid(cells@, *config, *screen),
            Err(e) => !valid_grid(*config) && e is SystemError,
        },
{
    if config.rows == 0 || config.columns == 0 {
        return Err(MouselessError::SystemError(invalid_input_error("Grid must have at least one row and one column")));
    }
    let combinations = match generate_key_combinations(config) {
        Ok(c) => c,
        Err(e) => return Err(e),
    };
    let rows = config.rows;
    let columns = config.columns;
    let cell_w = screen.width / columns;
    let cell_h = screen.height / rows;
    let mut cells: Vec<GridCell> = Vec::new();
    let mut row: u32 = 0;
    while row < rows
        invariant
            valid_grid(*config),
            screen_in_range(*screen),
            rows == config.rows,
            columns == config.columns,
            cell_w == cell_width(*config, *screen),
            cell_h == cell_height(*config, *screen),
            combinations@.len() == rows * columns,
            forall|k: int| 0 <= k < combinations@.len() ==> #[trigger] combinations@[k]@ == combo_at(k),
            row <= rows,
            cells@.len() == row * columns,
            forall|k: int| 0 <= k < cells@.len() ==> #[trigger] is_grid_cell(cells@[k], *config, *screen, k),
        decreases rows - row,
    {
        let mut col: u32 = 0;
        while col < columns
            invariant
                valid_grid(*config),
                screen_in_range(*screen),
                rows == config.rows,
                columns == config.columns,
                cell_w == cell_width(*config, *screen),
                cell_h == cell_height(*config, *screen),
                combinations@.len() == rows * columns,
                forall|k: int| 0 <= k < combinations@.len() ==> #[trigger] combinations@[k]@ == combo_at(k),
                row < rows,
                col <= columns,
                cells@.len() == row * columns + col,
                forall|k: int| 0 <= k < cells@.len() ==> #[trigger] is_grid_cell(cells@[k], *config, *screen, k),
            decreases columns - col,
        {
            proof {
                lemma_cell_in_screen(*config, *screen, row as int, col as int);
                lemma_mul_inequality(row as int + 1, rows as int, columns as int);
                assert((row as int + 1) * columns == row * columns + columns) by (nonlinear_arith);
                lemma_fundamental_div_mod_converse(
                    cells@.len() as int, columns as int, row as int, col as int);
            }
            let x = (screen.x as i64 + (col as u64 * cell_w as u64) as i64) as i32;
            let y = (screen.y as i64 + (row as u64 * cell_h as u64) as i64) as i32;
            let bounds = GridCellBounds { x, y, width: cell_w, height: cell_h };
            let center_position = bounds.center();
            let k = cells.len();
            let key_combination = combinations[k].clone();
            cells.push(GridCell { row, column: col, bounds, key_combination, center_position });
            col = col + 1;
        }
        proof {
            assert((row as int + 1) * columns == row * columns + columns) by (nonlinear_arith);
        }
        row = row + 1;
    }
    Ok(cells)
}

/// The first `rows * columns` combinations of the allocation order.
fn generate_key_combinations(config: &GridConfig) -> (r: Result<Vec<String>>)
    ensures
        match r {
            Ok(v) => {
                &&& config.rows * config.columns <= 160
                &&& v@.len() == config.rows * config.columns
                &&& forall|k: int| 0 <= k < v@.len() ==> #[trigger] v@[k]@ == combo_at(k)
            },
            Err(e) => config.rows * config.columns > 160 && e is SystemError,
        },
{
    proof {
        let (r, c) = (config.rows as int, config.columns as int);
        assert(r * c <= u32::MAX as int * u32::MAX as int) by (nonlinear_arith)
            requires
                0 <= r <= u32::MAX,
                0 <= c <= u32::MAX,
        ;
    }
    let total: u64 = config.rows as u64 * config.columns as u64;
    if total > MAX_COMBINATIONS as u64 {
        return Err(MouselessError::SystemError(invalid_input_error("Not enough key combinations for grid size")));
    }
    let total = total as usize;
    let mut combinations: Vec<String> = Vec::new();
    let mut k: usize = 0;
    while k < total
        invariant
            total <= MAX_COMBINATIONS,
            k <= total,
            combinations@.len() == k,
            forall|i: int| 0 <= i < k ==> #[trigger] combinations@[i]@ == combo_at(i),
        decreases total - k,
    {
        combinations.push(combination_at(k));
        k = k + 1;
    }
    Ok(combinations)
}


/// The grid allocator's state: a shape, a screen, and the cell table that
/// the two determine.
#[derive(Debug, Clone)]
pub struct GridManager {
    config: GridConfig,
    cells: Vec<GridCell>,
    screen_bounds: ScreenBounds,
}

impl GridManager {
    pub closed spec fn config_spec(&self) -> GridConfig {
        self.config
    }

    pub closed spec fn screen_spec(&self) -> ScreenBounds {
        self.screen_bounds
    }

    pub closed spec fn cells_spec(&self) -> Seq<GridCell> {
        self.cells@
    }

    /// The cell table is exactly the layout of the shape on the screen.
    pub open spec fn wf(&self) -> bool {
        &&& valid_grid(self.config_spec())
        &&& screen_in_range(self.screen_spec())
        &&& is_grid(self.cells_spec(), self.config_spec(), self.screen_spec())
    }

    /// Lays out the grid; fails when the shape has no cells or more cells
    /// than there are combinations.
    pub fn new(config: GridConfig, screen_bounds: ScreenBounds) -> (r: Result<Self>)
        requires
            screen_in_range(screen_bounds),
        ensures
            match r {
                Ok(m) => m.wf() && m.config_spec() == config && m.screen_spec() == screen_bounds,
                Err(e) => !valid_grid(config) && e is SystemError,
            },
    {
        let cells = calculate_grid(&config, &screen_bounds)?;
        Ok(GridManager { config, cells, screen_bounds })
    }

    /// The cell whose combination is `key_combination`, if any.
    pub fn get_cell_by_keys(&self, key_combination: &str) -> (r: Option<&GridCell>)
        requires
            self.wf(),
        ensures
            match r {
                Some(cell) => {
                    &&& 0 <= combo_index(key_combination@) < self.cells_spec().len()
                    &&& *cell == self.cells_spec()[combo_index(key_combination@)]
                    &&& cell.key_combination@ == key_combination@
                },
                None => forall|k: int|
                    0 <= k < self.cells_spec().len() ==> #[trigger] self.cells_spec()[k].key_combination@
                        != key_combination@,
            },
    {
        let index = combination_index(key_combination);
        if index >= 0 && (index as u64) < self.cells.len() as u64 {
            proof {
                assert(is_grid_cell(self.cells@[index as int], self.config, self.screen_bounds, index as int));
                lemma_combo_at_index(key_combination@);
            }
            Some(&self.cells[index as usize])
        } else {
            proof {
                assert forall|k: int| 0 <= k < self.cells@.len() implies #[trigger] self.cells@[k].key_combination@
                    != key_combination@ by {
                    assert(is_grid_cell(self.cells@[k], self.config, self.screen_bounds, k));
                    lemma_combo_index(k);
                }
            }
            None
        }
    }

    /// The whole cell table, in row-major order.
    pub fn get_cells(&self) -> (r: &[GridCell])
        ensures
            r@ == self.cells_spec(),
    {
        self.cells.as_slice()
    }

    pub fn get_config(&self) -> (r: &GridConfig)
        ensures
            *r == self.config_spec(),
    {
        &self.config
    }

    /// Replaces the shape and lays the grid out again; on failure nothing
    /// changes.
    pub fn update_config(&mut self, config: GridConfig) -> (r: Result<()>)
        requires
            old(self).wf(),
        ensures
            final(self).wf(),
            match r {
                Ok(_) => final(self).config_spec() == config && final(self).screen_spec() == old(self).screen_spec(),
                Err(e) => !valid_grid(config) && e is SystemError && *final(self) == *old(self),
            },
    {
        let cells = calculate_grid(&config, &self.screen_bounds)?;
        self.config = config;
        self.cells = cells;
        Ok(())
    }

    /// Moves the grid to another screen and lays it out again.
    pub fn update_screen_bounds(&mut self, screen_bounds: ScreenBounds) -> (r: Result<()>)
        requires
            old(self).wf(),
            screen_in_range(screen_bounds),
        ensures
            r is Ok,
            final(self).wf(),
            final(self).config_spec() == old(self).config_spec(),
            final(self).screen_spec() == screen_bounds,
    {
        let cells = calculate_grid(&self.config, &screen_bounds)?;
        self.screen_bounds = screen_bounds;
        self.cells = cells;
        Ok(())
    }

    /// The center of the cell at `(row, column)`, if the grid has one there.
    pub fn get_cell_center(&self, row: u32, column: u32) -> (r: Option<Position>)
        requires
            self.wf(),
        ensures
            match r {
                Some(p) => exists|k: int|
                    0 <= k < self.cells_spec().len() && #[trigger] self.cells_spec()[k].row == row
                        && self.cells_spec()[k].column == column && p == self.cells_spec()[k].center_position,
                None => forall|k: int|
                    0 <= k < self.cells_spec().len() ==> !(#[trigger] self.cells_spec()[k].row == row
                        && self.cells_spec()[k].column == column),
            },
    {
        let mut i: usize = 0;
        while i < self.cells.len()
            invariant
                i <= self.cells@.len(),
                forall|k: int| 0 <= k < i ==> !(#[trigger] self.cells@[k].row == row && self.cells@[k].column == column),
            decreases self.cells@.len() - i,
        {
            if self.cells[i].row == row && self.cells[i].column == column {
                return Some(self.cells[i].center_position);
            }
            i = i + 1;
        }
        None
    }

    /// The first cell, in row-major order, whose bounds contain `position`.
    pub fn find_cell_at_position(&self, position: Position) -> (r: Option<&GridCell>)
        ensures
            match r {
                Some(cell) => exists|k: int|
                    0 <= k < self.cells_spec().len() && *cell == #[trigger] self.cells_spec()[k]
                        && cell.bounds.contains_spec(position)
                        && forall|j: int| 0 <= j < k ==> !self.cells_spec()[j].bounds.contains_spec(position),
                None => forall|k: int|
                    0 <= k < self.cells_spec().len() ==> !(#[trigger] self.cells_spec()[k]).bounds.contains_spec(position),
            },
    {
        let mut i: usize = 0;
        while i < self.cells.len()
            invariant
                i <= self.cells@.len(),
                forall|k: int| 0 <= k < i ==> !(#[trigger] self.cells@[k]).bounds.contains_spec(position),
            decreases self.cells@.len() - i,
        {
            if self.cells[i].bounds.contains(position) {
                return Some(&self.cells[i]);
            }
            i = i + 1;
        }
        None
    }
}


/// Allocation law: a valid grid shape gets exactly `rows * columns` cells,
/// their combinations are pairwise distinct two-key strings, and each one
/// is a home-row key followed by a top-row key, or, past the first 90, a
/// bottom-row key followed by a digit. Up to 90 cells, only the primary
/// alphabet is used.
pub proof fn lemma_grid_allocation(cells: Seq<GridCell>, config: GridConfig, screen: ScreenBounds)
    requires
        valid_grid(config),
        is_grid(cells, config, screen),
    ensures
        cells.len() == config.rows * config.columns,
        forall|j: int, k: int|
            0 <= j < cells.len() && 0 <= k < cells.len() && j != k ==> #[trigger] cells[j].key_combination@
                != #[trigger] cells[k].key_combination@,
        forall|k: int|
            0 <= k < cells.len() ==> {
                let s = #[trigger] cells[k].key_combination@;
                &&& s.len() == 2
                &&& (home_row_index(s[0]) >= 0 && top_row_index(s[1]) >= 0) || (bottom_row_index(s[0]) >= 0
                    && digit_index(s[1]) >= 0)
                &&& k < 90 ==> home_row_index(s[0]) >= 0 && top_row_index(s[1]) >= 0
            },
        config.rows * config.columns <= 90 ==> forall|k: int|
            0 <= k < cells.len() ==> home_row_index(#[trigger] cells[k].key_combination@[0]) >= 0
                && top_row_index(cells[k].key_combination@[1]) >= 0,
{
    assert forall|j: int, k: int|
        0 <= j < cells.len() && 0 <= k < cells.len() && j != k implies #[trigger] cells[j].key_combination@
            != #[trigger] cells[k].key_combination@ by {
        assert(is_grid_cell(cells[j], config, screen, j));
        assert(is_grid_cell(cells[k], config, screen, k));
        lemma_combos_distinct(j, k);
    }
    assert forall|k: int| 0 <= k < cells.len() implies {
        let s = #[trigger] cells[k].key_combination@;
        &&& s.len() == 2
        &&& (home_row_index(s[0]) >= 0 && top_row_index(s[1]) >= 0) || (bottom_row_index(s[0]) >= 0
            && digit_index(s[1]) >= 0)
        &&& k < 90 ==> home_row_index(s[0]) >= 0 && top_row_index(s[1]) >= 0
    } by {
        assert(is_grid_cell(cells[k], config, screen, k));
        lemma_combo_index(k);
    }
}

proof fn lemma_same_band(a: int, b: int, w: int)
    requires
        w > 0,
        0 <= a,
        0 <= b,
        a * w <= b * w + w / 2,
        b * w + w / 2 < a * w + w,
    ensures
        a == b,
{
    if a < b {
        lemma_mul_inequality(a + 1, b, w);
        assert((a + 1) * w == a * w + w) by (nonlinear_arith);
    } else if a > b {
        lemma_mul_inequality(b + 1, a, w);
        assert((b + 1) * w == b * w + w) by (nonlinear_arith);
    }
}

/// Lookup law: when every cell is at least one pixel wide and high, the
/// center of each cell lies in that cell's bounds and in no other cell's,
/// so a containment scan at the center finds the cell again; and the
/// cell's combination leads back to the cell's own index.
pub proof fn lemma_lookup_agreement(cells: Seq<GridCell>, config: GridConfig, screen: ScreenBounds, k: int)
    requires
        valid_grid(config),
        is_grid(cells, config, screen),
        screen.width >= config.columns,
        screen.height >= config.rows,
        0 <= k < cells.len(),
    ensures
        cells[k].bounds.contains_spec(cells[k].center_position),
        forall|j: int|
            0 <= j < cells.len() && j != k ==> !(#[trigger] cells[j]).bounds.contains_spec(cells[k].center_position),
        combo_index(cells[k].key_combination@) == k,
{
    let cols = config.columns as int;
    let w = cell_width(config, screen);
    let h = cell_height(config, screen);
    lemma_fundamental_div_mod(screen.width as int, cols);
    lemma_fundamental_div_mod(screen.height as int, config.rows as int);
    assert(w >= 1) by {
        if w < 1 {
            assert(w == 0);
            assert(cols * w == 0) by (nonlinear_arith)
                requires
                    w == 0,
            ;
        }
    }
    assert(h >= 1) by {
        if h < 1 {
            assert(h == 0);
            assert(config.rows as int * h == 0) by (nonlinear_arith)
                requires
                    h == 0,
            ;
        }
    }
    assert(is_grid_cell(cells[k], config, screen, k));
    lemma_combo_index(k);
    lemma_fundamental_div_mod(k, cols);
    assert forall|j: int|
        0 <= j < cells.len() && j != k implies !(#[trigger] cells[j]).bounds.contains_spec(cells[k].center_position) by {
        assert(is_grid_cell(cells[j], config, screen, j));
        if cells[j].bounds.contains_spec(cells[k].center_position) {
            lemma_fundamental_div_mod(j, cols);
            lemma_same_band(j % cols, k % cols, w);
            lemma_same_band(j / cols, k / cols, h);
        }
    }
}

} // verus!
