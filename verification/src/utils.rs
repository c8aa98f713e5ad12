use vstd::prelude::*;
use vstd::string::StringExecFns;
use crate::text::{decimal, push_decimal, repeat};

verus! {

/// The text that moves the cursor up by `lines` lines.
pub open spec fn cursor_up_text(lines: nat) -> Seq<char> {
    "\x1b["@ + decimal(lines) + "A"@
}

/// The text that moves the cursor down by `lines` lines.
pub open spec fn cursor_down_text(lines: nat) -> Seq<char> {
    "\x1b["@ + decimal(lines) + "B"@
}

/// The text that moves the cursor to the column `col`, counted from 0.
pub open spec fn cursor_column_text(col: nat) -> Seq<char> {
    "\x1b["@ + decimal(col + 1) + "G"@
}

/// The text that moves the cursor to the row `row`, counted from 0.
pub open spec fn cursor_row_text(row: nat) -> Seq<char> {
    "\x1b["@ + decimal(row + 1) + "d"@
}

/// The text that moves the cursor to the column `col` of the row `row`, both
/// counted from 0.
pub open spec fn cursor_pos_text(col: nat, row: nat) -> Seq<char> {
    "\x1b["@ + decimal(row + 1) + ";"@ + decimal(col + 1) + "H"@
}

/// The text that moves the cursor to the column that is given and to the row
/// `down` lines below the one that is given, and nothing on an axis that is
/// not given.
pub open spec fn cursor_text_below(col: Option<u32>, row: Option<u32>, down: nat) -> Seq<char> {
    match (col, row) {
        (Some(x), None) => cursor_column_text(x as nat),
        (None, Some(y)) => cursor_row_text((y + down) as nat),
        (Some(x), Some(y)) => cursor_pos_text(x as nat, (y + down) as nat),
        (None, None) => Seq::empty(),
    }
}

/// The text that moves the cursor on the axes that are given, and nothing
/// where none is.
pub open spec fn cursor_text(col: Option<u32>, row: Option<u32>) -> Seq<char> {
    cursor_text_below(col, row, 0)
}

/// The blank lines that set two images apart.
pub open spec fn spacing_text(spacing: Option<u32>) -> Seq<char> {
    match spacing {
        Some(spacing) => repeat("\n"@, spacing as nat),
        None => Seq::empty(),
    }
}

/// Appends the sequence that saves the cursor's position.
pub fn save_cursor(out: &mut String)
    ensures
        final(out)@ == old(out)@ + "\x1b[s"@,
{
    out.append("\x1b[s");
}

/// Appends the sequence that restores the cursor's position.
pub fn restore_cursor(out: &mut String)
    ensures
        final(out)@ == old(out)@ + "\x1b[u"@,
{
    out.append("\x1b[u");
}

/// Appends the sequence that moves the cursor up by `x + 1` lines.
pub fn move_cursor_up(out: &mut String, x: u32)
    ensures
        final(out)@ == old(out)@ + cursor_up_text((x + 1) as nat),
{
    out.append("\x1b[");
    push_decimal(out, x as u64 + 1);
    out.append("A");
    assert(out@ =~= old(out)@ + cursor_up_text((x + 1) as nat));
}

/// Appends the sequence that moves the cursor down by `x + 1` lines.
pub fn move_cursor_down(out: &mut String, x: u32)
    ensures
        final(out)@ == old(out)@ + cursor_down_text((x + 1) as nat),
{
    out.append("\x1b[");
    push_decimal(out, x as u64 + 1);
    out.append("B");
    assert(out@ =~= old(out)@ + cursor_down_text((x + 1) as nat));
}

/// Appends the sequence that moves the cursor to the column `col`.
pub fn move_cursor_column(out: &mut String, col: u32)
    ensures
        final(out)@ == old(out)@ + cursor_column_text(col as nat),
{
    out.append("\x1b[");
    push_decimal(out, col as u64 + 1);
    out.append("G");
    assert(out@ =~= old(out)@ + cursor_column_text(col as nat));
}

/// Appends the sequence that moves the cursor to the row `row`.
pub fn move_cursor_row(out: &mut String, row: u32)
    ensures
        final(out)@ == old(out)@ + cursor_row_text(row as nat),
{
    move_cursor_row_below(out, row, 0);
}

/// Appends the sequence that moves the cursor to a column and a row.
pub fn move_cursor_pos(out: &mut String, col: u32, row: u32)
    ensures
        final(out)@ == old(out)@ + cursor_pos_text(col as nat, row as nat),
{
    move_cursor_pos_below(out, col, row, 0);
}

fn move_cursor_row_below(out: &mut String, row: u32, down: u32)
    ensures
        final(out)@ == old(out)@ + cursor_row_text((row + down) as nat),
{
    out.append("\x1b[");
    push_decimal(out, row as u64 + down as u64 + 1);
    out.append("d");
    assert(out@ =~= old(out)@ + cursor_row_text((row + down) as nat));
}

fn move_cursor_pos_below(out: &mut String, col: u32, row: u32, down: u32)
    ensures
        final(out)@ == old(out)@ + cursor_pos_text(col as nat, (row + down) as nat),
{
    out.append("\x1b[");
    push_decimal(out, row as u64 + down as u64 + 1);
    out.append(";");
    push_decimal(out, col as u64 + 1);
    out.append("H");
    assert(out@ =~= old(out)@ + cursor_pos_text(col as nat, (row + down) as nat));
}

/// Appends the sequence that moves the cursor on the axes that are given.
pub fn move_cursor(out: &mut String, col: Option<u32>, row: Option<u32>)
    ensures
        final(out)@ == old(out)@ + cursor_text(col, row),
{
    move_cursor_below(out, col, row, 0);
}

/// Appends the sequence that moves the cursor to the column that is given and
/// to the row `down` lines below the one that is given.
pub fn move_cursor_below(out: &mut String, col: Option<u32>, row: Option<u32>, down: u32)
    ensures
        final(out)@ == old(out)@ + cursor_text_below(col, row, down as nat),
{
    match (col, row) {
        (Some(x), None) => move_cursor_column(out, x),
        (None, Some(y)) => move_cursor_row_below(out, y, down),
        (Some(x), Some(y)) => move_cursor_pos_below(out, x, y, down),
        (None, None) => {
            assert(out@ =~= old(out)@ + cursor_text_below(col, row, down as nat));
        },
    }
}

/// Appends the sequence that shows the cursor.
pub fn show_cursor(out: &mut String)
    ensures
        final(out)@ == old(out)@ + "\x1b[?25h"@,
{
    out.append("\x1b[?25h");
}

/// Appends the sequence that hides the cursor.
pub fn hide_cursor(out: &mut String)
    ensures
        final(out)@ == old(out)@ + "\x1b[?25l"@,
{
    out.append("\x1b[?25l");
}

/// Appends `spacing` blank lines, where a spacing is given.
pub fn handle_spacing(out: &mut String, spacing: Option<u32>)
    ensures
        final(out)@ == old(out)@ + spacing_text(spacing),
{
    if let Some(spacing) = spacing {
        let mut done: u32 = 0;
        while done < spacing
            invariant
                done <= spacing,
                out@ == old(out)@ + repeat("\n"@, done as nat),
            decreases spacing - done,
        {
            out.append("\n");
            done += 1;
            assert(out@ =~= old(out)@ + repeat("\n"@, done as nat));
        }
    } else {
        assert(out@ =~= old(out)@ + spacing_text(spacing));
    }
}

/// Width of a character cell, in pixels, where the terminal reports none.
pub const DEFAULT_COL_SIZE: u32 = 15;

/// Height of a character cell, in pixels, where the terminal reports none.
pub const DEFAULT_ROW_SIZE: u32 = 30;

/// Size of the terminal, in character cells and in pixels.
#[derive(Clone, Copy, Default, Debug)]
pub struct TermSize {
    /// the amount of visible rows in the pty
    pub rows: u32,
    /// the amount of visible columns in the pty
    pub cols: u32,
    /// the width of the view in pixels
    pub width: u32,
    /// the height of the view in pixels
    pub height: u32,
}

impl TermSize {
    /// The pixel size of one cell, where the grid has cells at all.
    pub open spec fn spec_cell_size(self) -> Option<(u32, u32)> {
        if self.cols == 0 || self.rows == 0 {
            None
        } else {
            Some(((self.width / self.cols) as u32, (self.height / self.rows) as u32))
        }
    }

    /// The pixel size of one cell that size fitting works with: the one the
    /// terminal reports, or the default where it reports no grid or no pixels.
    pub open spec fn spec_cell_size_or_default(self) -> (u32, u32) {
        match self.spec_cell_size() {
            None => (DEFAULT_COL_SIZE, DEFAULT_ROW_SIZE),
            Some(size) => if size.0 == 0 && size.1 == 0 {
                (DEFAULT_COL_SIZE, DEFAULT_ROW_SIZE)
            } else {
                size
            },
        }
    }

    /// The size of a terminal, from the four numbers that the terminal
    /// reports.
    pub fn new(rows: u16, cols: u16, width: u16, height: u16) -> (size: Self)
        ensures
            size.rows == rows,
            size.cols == cols,
            size.width == width,
            size.height == height,
    {
        Self { rows: rows as u32, cols: cols as u32, width: width as u32, height: height as u32 }
    }

    /// The pixel size of one cell, where the grid has cells at all.
    pub fn get_cell_size(&self) -> (size: Option<(u32, u32)>)
        ensures
            size == self.spec_cell_size(),
    {
        if self.cols == 0 || self.rows == 0 {
            return None;
        }
        Some((self.width / self.cols, self.height / self.rows))
    }

    /// The cell size with the default in place of a missing one.
    pub fn cell_size_or_default(&self) -> (size: (u32, u32))
        ensures
            size == self.spec_cell_size_or_default(),
    {
        match self.get_cell_size() {
            None => (DEFAULT_COL_SIZE, DEFAULT_ROW_SIZE),
            Some((c, r)) => if c == 0 && r == 0 {
                (DEFAULT_COL_SIZE, DEFAULT_ROW_SIZE)
            } else {
                (c, r)
            },
        }
    }
}

/// The pixel box that `cols` by `rows` cells of the given size cover.
pub open spec fn bound_box(cols: nat, rows: nat, col_size: nat, row_size: nat) -> (nat, nat) {
    (cols * col_size, rows * row_size)
}

/// Whether an image lies strictly inside the bound box on both axes.
pub open spec fn fits_natively(
    width: nat,
    height: nat,
    cols: nat,
    rows: nat,
    col_size: nat,
    row_size: nat,
) -> bool {
    width < cols * col_size && height < rows * row_size
}

/// Whether the width is the binding axis: scaled to the full width of the
/// bound box, the image is no taller than the box.
pub open spec fn width_bound(
    width: nat,
    height: nat,
    cols: nat,
    rows: nat,
    col_size: nat,
    row_size: nat,
) -> bool {
    width * (rows * row_size) >= (cols * col_size) * height
}

/// Whether the fit of these values needs no division by zero. A small image
/// that is not upscaled and a height-bound image always have one; a
/// width-bound image has one unless it has no width or the cells no height.
pub open spec fn fit_defined(
    width: nat,
    height: nat,
    cols: nat,
    rows: nat,
    col_size: nat,
    row_size: nat,
    upscale: bool,
) -> bool {
    ||| !upscale && fits_natively(width, height, cols, rows, col_size, row_size)
    ||| !width_bound(width, height, cols, rows, col_size, row_size)
    ||| width * row_size > 0
}

/// The size in cells at which an image of `width` by `height` pixels is shown
/// inside `cols` by `rows` cells of `col_size` by `row_size` pixels.
///
/// An image that lies inside the bound box and is not to be upscaled keeps its
/// pixel density. Any other image is scaled with its aspect ratio kept: the
/// binding axis takes the whole box, the other one is rounded down, but to no
/// less than one cell.
pub open spec fn fit(
    width: nat,
    height: nat,
    cols: nat,
    rows: nat,
    col_size: nat,
    row_size: nat,
    upscale: bool,
) -> (nat, nat) {
    let (bound_width, bound_height) = bound_box(cols, rows, col_size, row_size);
    if !upscale && fits_natively(width, height, cols, rows, col_size, row_size) {
        (width / col_size, height / row_size)
    } else if width_bound(width, height, cols, rows, col_size, row_size) {
        (cols, at_least_one((height * bound_width) / (width * row_size)))
    } else {
        (at_least_one((width * bound_height) / (height * col_size)), rows)
    }
}

/// A number of cells, but no less than one.
pub open spec fn at_least_one(n: nat) -> nat {
    if n < 1 {
        1
    } else {
        n
    }
}

/// The number of columns that a fit is bounded by: the one asked for, or the
/// full width of the terminal.
pub open spec fn bound_cols(cols: Option<u32>, term_size: TermSize) -> nat {
    match cols {
        Some(cols) => cols as nat,
        None => term_size.cols as nat,
    }
}

/// The number of rows that a fit is bounded by: the one asked for, or the
/// height of the terminal less the row that the next prompt takes.
pub open spec fn bound_rows(rows: Option<u32>, term_size: TermSize) -> nat
    recommends
        rows is None ==> term_size.rows >= 1,
{
    match rows {
        Some(rows) => rows as nat,
        None => (term_size.rows - 1) as nat,
    }
}

/// What `fit_in_bounds` asks of its arguments: a terminal of at least one row
/// where no number of rows is given, and a fit without a division by zero.
pub open spec fn fit_in_bounds_defined(
    width: u32,
    height: u32,
    cols: Option<u32>,
    rows: Option<u32>,
    upscale: bool,
    term_size: TermSize,
) -> bool {
    &&& rows is None ==> term_size.rows >= 1
    &&& fit_defined(
        width as nat,
        height as nat,
        bound_cols(cols, term_size),
        bound_rows(rows, term_size),
        term_size.spec_cell_size_or_default().0 as nat,
        term_size.spec_cell_size_or_default().1 as nat,
        upscale,
    )
}

/// The fit of an image into the terminal, as `fit_in_bounds` computes it.
pub open spec fn fit_in_term(
    width: u32,
    height: u32,
    cols: Option<u32>,
    rows: Option<u32>,
    upscale: bool,
    term_size: TermSize,
) -> (nat, nat) {
    fit(
        width as nat,
        height as nat,
        bound_cols(cols, term_size),
        bound_rows(rows, term_size),
        term_size.spec_cell_size_or_default().0 as nat,
        term_size.spec_cell_size_or_default().1 as nat,
        upscale,
    )
}

/// The product of two 32-bit numbers fits in 64 bits.
proof fn lemma_product_fits(a: nat, b: nat)
    requires
        a <= u32::MAX,
        b <= u32::MAX,
    ensures
        a * b <= 0xFFFF_FFFE_0000_0001,
{
    assert(a * b <= 0xFFFF_FFFE_0000_0001) by (nonlinear_arith)
        requires
            a <= 0xFFFF_FFFF,
            b <= 0xFFFF_FFFF,
    ;
}

/// The quotient of the derived axis is no more than the bound of that axis.
proof fn lemma_derived_axis_bounded(a: nat, b: nat, n: nat, size_a: nat, size_b: nat, m: nat)
    requires
        a * size_b > 0,
        a * (m * size_b) >= (n * size_a) * b,
    ensures
        (b * (n * size_a)) / (a * size_b) <= m,
{
    assert((b * (n * size_a)) <= m * (a * size_b)) by (nonlinear_arith)
        requires
            a * (m * size_b) >= (n * size_a) * b,
    ;
    vstd::arithmetic::div_mod::lemma_div_is_ordered(
        (b * (n * size_a)) as int,
        (m * (a * size_b)) as int,
        (a * size_b) as int,
    );
    vstd::arithmetic::div_mod::lemma_div_multiples_vanish(m as int, (a * size_b) as int);
}

/// Computes the size in cells at which an image of `width` by `height` pixels
/// is shown in a terminal of the given size, inside `cols` by `rows` cells
/// where they are given and inside the terminal less one row where not.
pub fn fit_in_bounds(
    width: u32,
    height: u32,
    cols: Option<u32>,
    rows: Option<u32>,
    upscale: bool,
    term_size: &TermSize,
) -> (plan: (u32, u32))
    requires
        fit_in_bounds_defined(width, height, cols, rows, upscale, *term_size),
    ensures
        (plan.0 as nat, plan.1 as nat) == fit_in_term(width, height, cols, rows, upscale, *term_size),
        !upscale && fits_natively(
            width as nat,
            height as nat,
            bound_cols(cols, *term_size),
            bound_rows(rows, *term_size),
            term_size.spec_cell_size_or_default().0 as nat,
            term_size.spec_cell_size_or_default().1 as nat,
        ) ==> plan.0 == width / term_size.spec_cell_size_or_default().0 && plan.1 == height
            / term_size.spec_cell_size_or_default().1,
{
    let (col_size, row_size) = term_size.cell_size_or_default();
    let cols: u32 = match cols {
        Some(cols) => cols,
        None => term_size.cols,
    };
    // Terminal prompt puts the image out of screen (rows - 1)
    let rows: u32 = match rows {
        Some(rows) => rows,
        None => term_size.rows - 1,
    };
    proof {
        lemma_product_fits(cols as nat, col_size as nat);
        lemma_product_fits(rows as nat, row_size as nat);
    }
    let bound_width: u64 = cols as u64 * col_size as u64;
    let bound_height: u64 = rows as u64 * row_size as u64;

    if !upscale && (width as u64) < bound_width && (height as u64) < bound_height {
        assert(col_size > 0 && row_size > 0) by (nonlinear_arith)
            requires
                width < cols * col_size,
                height < rows * row_size,
        ;
        return (width / col_size, height / row_size);
    }
    assert(width as u128 * bound_height as u128 <= u128::MAX && bound_width as u128 * height as u128
        <= u128::MAX) by (nonlinear_arith)
        requires
            width <= u32::MAX,
            height <= u32::MAX,
            bound_width <= u64::MAX,
            bound_height <= u64::MAX,
    ;
    let w_ratio: u128 = width as u128 * bound_height as u128;
    let h_ratio: u128 = bound_width as u128 * height as u128;

    if w_ratio >= h_ratio {
        assert(width as u128 * row_size as u128 <= u64::MAX) by (nonlinear_arith)
            requires
                width <= u32::MAX,
                row_size <= u32::MAX,
        ;
        let divisor: u128 = width as u128 * row_size as u128;
        proof {
            assert(h_ratio == (height as nat) * ((cols as nat) * (col_size as nat))) by (nonlinear_arith)
                requires
                    h_ratio == bound_width * height,
                    bound_width == (cols as nat) * (col_size as nat),
            ;
            lemma_derived_axis_bounded(
                width as nat,
                height as nat,
                cols as nat,
                col_size as nat,
                row_size as nat,
                rows as nat,
            );
        }
        let derived: u128 = h_ratio / divisor;
        (cols, if derived < 1 { 1 } else { derived as u32 })
    } else {
        assert(height as u128 * col_size as u128 <= u64::MAX) by (nonlinear_arith)
            requires
                height <= u32::MAX,
                col_size <= u32::MAX,
        ;
        let divisor: u128 = height as u128 * col_size as u128;
        proof {
            assert(divisor > 0 && (height as nat) * ((cols as nat) * (col_size as nat)) >= (
            (rows as nat) * (row_size as nat)) * (width as nat)) by (nonlinear_arith)
                requires
                    w_ratio < h_ratio,
                    divisor == height * col_size,
                    w_ratio == width * bound_height,
                    h_ratio == bound_width * height,
                    bound_width == (cols as nat) * (col_size as nat),
                    bound_height == (rows as nat) * (row_size as nat),
            ;
            lemma_derived_axis_bounded(
                height as nat,
                width as nat,
                rows as nat,
                row_size as nat,
                col_size as nat,
                cols as nat,
            );
        }
        let derived: u128 = w_ratio / divisor;
        (if derived < 1 { 1 } else { derived as u32 }, rows)
    }
}

/// Computes the fit of an image into the terminal where it has one, and
/// tells where it has none.
pub fn try_fit_in_bounds(
    width: u32,
    height: u32,
    cols: Option<u32>,
    rows: Option<u32>,
    upscale: bool,
    term_size: &TermSize,
) -> (plan: Option<(u32, u32)>)
    ensures
        plan is Some <==> fit_in_bounds_defined(width, height, cols, rows, upscale, *term_size),
        plan matches Some(plan) ==> (plan.0 as nat, plan.1 as nat) == fit_in_term(
            width,
            height,
            cols,
            rows,
            upscale,
            *term_size,
        ),
{
    if rows.is_none() && term_size.rows == 0 {
        return None;
    }
    let (col_size, row_size) = term_size.cell_size_or_default();
    let bound_cols: u32 = match cols {
        Some(cols) => cols,
        None => term_size.cols,
    };
    let bound_rows: u32 = match rows {
        Some(rows) => rows,
        None => term_size.rows - 1,
    };
    proof {
        lemma_product_fits(bound_cols as nat, col_size as nat);
        lemma_product_fits(bound_rows as nat, row_size as nat);
        lemma_product_fits(width as nat, row_size as nat);
    }
    let bound_width: u64 = bound_cols as u64 * col_size as u64;
    let bound_height: u64 = bound_rows as u64 * row_size as u64;
    let native: bool = !upscale && (width as u64) < bound_width && (height as u64) < bound_height;
    assert(width as u128 * bound_height as u128 <= u128::MAX && bound_width as u128 * height as u128
        <= u128::MAX) by (nonlinear_arith)
        requires
            width <= u32::MAX,
            height <= u32::MAX,
            bound_width <= u64::MAX,
            bound_height <= u64::MAX,
    ;
    let width_bound: bool = width as u128 * bound_height as u128 >= bound_width as u128
        * height as u128;
    if !native && width_bound && width as u64 * row_size as u64 == 0 {
        return None;
    }
    Some(fit_in_bounds(width, height, cols, rows, upscale, term_size))
}

/// A fit has at least one column and one row wherever that can be: where a
/// small image that keeps its pixel density covers a whole cell on each axis,
/// and where a scaled image is bounded by at least one cell on the axis that
/// it takes whole.
pub proof fn lemma_fit_is_positive(
    width: nat,
    height: nat,
    cols: nat,
    rows: nat,
    col_size: nat,
    row_size: nat,
    upscale: bool,
)
    requires
        fit_defined(width, height, cols, rows, col_size, row_size, upscale),
        if !upscale && fits_natively(width, height, cols, rows, col_size, row_size) {
            width >= col_size && height >= row_size
        } else if width_bound(width, height, cols, rows, col_size, row_size) {
            cols >= 1
        } else {
            rows >= 1
        },
    ensures
        fit(width, height, cols, rows, col_size, row_size, upscale).0 >= 1,
        fit(width, height, cols, rows, col_size, row_size, upscale).1 >= 1,
{
    if !upscale && fits_natively(width, height, cols, rows, col_size, row_size) {
        assert(col_size > 0 && row_size > 0) by (nonlinear_arith)
            requires
                width < cols * col_size,
                height < rows * row_size,
        ;
        vstd::arithmetic::div_mod::lemma_div_is_ordered(
            col_size as int,
            width as int,
            col_size as int,
        );
        vstd::arithmetic::div_mod::lemma_div_is_ordered(
            row_size as int,
            height as int,
            row_size as int,
        );
    }
}

/// Fitting is idempotent: an image that has the pixel size of its own fit is
/// fitted to that same size again, the bound box and the cells being the same.
/// This holds of every bound box and every cell of at least one unit on each
/// axis.
pub proof fn lemma_fit_is_idempotent(
    width: nat,
    height: nat,
    cols: nat,
    rows: nat,
    col_size: nat,
    row_size: nat,
    upscale: bool,
)
    requires
        cols >= 1,
        rows >= 1,
        col_size >= 1,
        row_size >= 1,
        fit_defined(width, height, cols, rows, col_size, row_size, upscale),
    ensures
        ({
            let plan = fit(width, height, cols, rows, col_size, row_size, upscale);
            &&& fit_defined(
                plan.0 * col_size,
                plan.1 * row_size,
                cols,
                rows,
                col_size,
                row_size,
                upscale,
            )
            &&& fit(plan.0 * col_size, plan.1 * row_size, cols, rows, col_size, row_size, upscale)
                == plan
        }),
{
    let plan = fit(width, height, cols, rows, col_size, row_size, upscale);
    let bound_width = cols * col_size;
    let bound_height = rows * row_size;
    let again = fit(plan.0 * col_size, plan.1 * row_size, cols, rows, col_size, row_size, upscale);
    assert(bound_width >= 1 && bound_height >= 1 && bound_width * row_size >= 1) by (nonlinear_arith)
        requires
            bound_width == cols * col_size,
            bound_height == rows * row_size,
            cols >= 1,
            rows >= 1,
            col_size >= 1,
            row_size >= 1,
    ;
    if !upscale && fits_natively(width, height, cols, rows, col_size, row_size) {
        vstd::arithmetic::div_mod::lemma_fundamental_div_mod(width as int, col_size as int);
        vstd::arithmetic::div_mod::lemma_fundamental_div_mod(height as int, row_size as int);
        vstd::arithmetic::div_mod::lemma_mod_pos_bound(width as int, col_size as int);
        vstd::arithmetic::div_mod::lemma_mod_pos_bound(height as int, row_size as int);
        assert(plan.0 * col_size <= width && plan.1 * row_size <= height) by (nonlinear_arith)
            requires
                width == col_size * plan.0 + width % col_size,
                height == row_size * plan.1 + height % row_size,
                width % col_size >= 0,
                height % row_size >= 0,
        ;
        vstd::arithmetic::div_mod::lemma_div_multiples_vanish(plan.0 as int, col_size as int);
        vstd::arithmetic::div_mod::lemma_div_multiples_vanish(plan.1 as int, row_size as int);
        assert(plan.0 * col_size == col_size * plan.0 && plan.1 * row_size == row_size * plan.1)
            by (nonlinear_arith);
    } else if width_bound(width, height, cols, rows, col_size, row_size) {
        lemma_derived_axis_bounded(width, height, cols, col_size, row_size, rows);
        assert(plan.0 == cols);
        assert(1 <= plan.1 <= rows);
        assert(plan.0 * col_size * bound_height >= bound_width * (plan.1 * row_size)
            && (plan.1 * row_size) * bound_width == plan.1 * (plan.0 * col_size * row_size)
            && plan.0 * col_size * row_size > 0) by (nonlinear_arith)
            requires
                plan.0 == cols,
                plan.1 <= rows,
                bound_width == cols * col_size,
                bound_height == rows * row_size,
                bound_width * row_size >= 1,
        ;
        vstd::arithmetic::div_mod::lemma_div_multiples_vanish(
            plan.1 as int,
            (plan.0 * col_size * row_size) as int,
        );
        assert((plan.0 * col_size * row_size) * plan.1 == plan.1 * (plan.0 * col_size * row_size))
            by (nonlinear_arith);
    } else {
        assert(height * col_size > 0 && height * (cols * col_size) >= (rows * row_size) * width)
            by (nonlinear_arith)
            requires
                width * (rows * row_size) < (cols * col_size) * height,
        ;
        lemma_derived_axis_bounded(height, width, rows, row_size, col_size, cols);
        assert(plan.1 == rows);
        assert(1 <= plan.0 <= cols);
        if plan.0 < cols {
            assert(plan.0 * col_size * bound_height < bound_width * (plan.1 * row_size)
                && (plan.0 * col_size) * bound_height == plan.0 * ((plan.1 * row_size) * col_size)
                && (plan.1 * row_size) * col_size > 0) by (nonlinear_arith)
                requires
                    plan.1 == rows,
                    plan.0 < cols,
                    bound_width == cols * col_size,
                    bound_height == rows * row_size,
                    bound_height >= 1,
                    col_size >= 1,
            ;
            vstd::arithmetic::div_mod::lemma_div_multiples_vanish(
                plan.0 as int,
                ((plan.1 * row_size) * col_size) as int,
            );
            assert(((plan.1 * row_size) * col_size) * plan.0 == plan.0 * ((plan.1 * row_size)
                * col_size)) by (nonlinear_arith);
        } else {
            assert(plan.0 * col_size * bound_height >= bound_width * (plan.1 * row_size)
                && (plan.1 * row_size) * bound_width == plan.1 * (plan.0 * col_size * row_size)
                && plan.0 * col_size * row_size > 0) by (nonlinear_arith)
                requires
                    plan.0 == cols,
                    plan.1 == rows,
                    bound_width == cols * col_size,
                    bound_height == rows * row_size,
                    bound_width * row_size >= 1,
            ;
            vstd::arithmetic::div_mod::lemma_div_multiples_vanish(
                plan.1 as int,
                (plan.0 * col_size * row_size) as int,
            );
            assert((plan.0 * col_size * row_size) * plan.1 == plan.1 * (plan.0 * col_size
                * row_size)) by (nonlinear_arith);
        }
    }
}

/// An image as rows of RGBA pixels, the top row first.
#[derive(Clone, Debug)]
pub struct Frame {
    /// the number of pixels in a row
    pub width: u32,
    /// the number of rows
    pub height: u32,
    /// the pixels, row after row, each as red, green, blue and alpha
    pub pixels: Vec<[u8; 4]>,
}

/// What a frame holds: its size and its pixels, row after row.
pub struct FrameView {
    pub width: u32,
    pub height: u32,
    pub pixels: Seq<[u8; 4]>,
}

impl FrameView {
    /// The pixel in the column `col` of the row `row`, both counted from 0.
    pub open spec fn pixel(self, col: int, row: int) -> [u8; 4] {
        self.pixels[row * self.width + col]
    }
}

impl View for Frame {
    type V = FrameView;

    open spec fn view(&self) -> FrameView {
        FrameView { width: self.width, height: self.height, pixels: self.pixels@ }
    }
}

impl Frame {
    /// A frame holds one pixel for each place of its grid.
    pub open spec fn wf(&self) -> bool {
        self.pixels@.len() == (self.width as nat) * (self.height as nat)
    }

    /// The pixel in the column `col` of the row `row`, both counted from 0.
    pub fn pixel(&self, col: u32, row: u32) -> (rgb: [u8; 4])
        requires
            self.wf(),
            col < self.width,
            row < self.height,
        ensures
            rgb == self@.pixel(col as int, row as int),
    {
        let len: usize = self.pixels.len();
        proof {
            lemma_pixel_in_grid(col as nat, row as nat, self.width as nat, self.height as nat);
            assert((row as nat) * (self.width as nat) + (col as nat) < len);
        }
        let index: usize = row as usize * self.width as usize + col as usize;
        self.pixels[index]
    }
}

/// A place of a grid has its index inside the grid.
pub proof fn lemma_pixel_in_grid(col: nat, row: nat, width: nat, height: nat)
    requires
        col < width,
        row < height,
    ensures
        row * width + col < width * height,
        row * width <= row * width + col,
{
    assert(row * width + col < width * height) by (nonlinear_arith)
        requires
            col < width,
            row < height,
    ;
}

/// Whether a pixel is left out: its alpha is below the threshold.
pub open spec fn spec_pixel_is_transparent(rgb: [u8; 4]) -> bool {
    rgb[3] < 25
}

/// Tells whether a pixel is left out: its alpha is below the threshold.
#[verifier::when_used_as_spec(spec_pixel_is_transparent)]
pub fn pixel_is_transparent(rgb: [u8; 4]) -> (transparent: bool)
    ensures
        transparent == spec_pixel_is_transparent(rgb),
{
    rgb[3] < 25
}

/// The sequence that selects a 24-bit colour, for the background or for the
/// foreground.
pub open spec fn rgb_text(rgb: [u8; 4], bg: bool) -> Seq<char> {
    (if bg {
        "\x1b[48;2;"@
    } else {
        "\x1b[38;2;"@
    }) + decimal(rgb[0] as nat) + ";"@ + decimal(rgb[1] as nat) + ";"@ + decimal(rgb[2] as nat)
        + "m"@
}

/// The index in the 256-colour palette that `ansi_colours::ansi256_from_rgb`
/// gives for a colour.
pub uninterp spec fn ansi256_index(red: u8, green: u8, blue: u8) -> u8;

/// Calls `ansi_colours::ansi256_from_rgb` on the colour as a tuple. The crate
/// computes the index from the three components alone; the contract names it.
#[verifier::external_body]
fn palette_index(red: u8, green: u8, blue: u8) -> (index: u8)
    ensures
        index == ansi256_index(red, green, blue),
{
    ansi_colours::ansi256_from_rgb((red, green, blue))
}

/// The sequence that selects the palette colour nearest to a colour, for the
/// background or for the foreground.
pub open spec fn indexed_text(rgb: [u8; 4], bg: bool) -> Seq<char> {
    (if bg {
        "\x1b[48;5;"@
    } else {
        "\x1b[38;5;"@
    }) + decimal(ansi256_index(rgb[0], rgb[1], rgb[2]) as nat) + "m"@
}

/// The sequence that selects a colour: in 24 bits where the terminal shows
/// them, from the palette where not.
pub open spec fn color_text(rgb: [u8; 4], bg: bool, truecolor: bool) -> Seq<char> {
    if truecolor {
        rgb_text(rgb, bg)
    } else {
        indexed_text(rgb, bg)
    }
}

/// Builds the sequence that selects a 24-bit colour.
pub fn ansi_rgb(rgb: [u8; 4], bg: bool) -> (text: String)
    ensures
        text@ == rgb_text(rgb, bg),
{
    let mut text = if bg {
        String::from_str("\x1b[48;2;")
    } else {
        String::from_str("\x1b[38;2;")
    };
    push_decimal(&mut text, rgb[0] as u64);
    text.append(";");
    push_decimal(&mut text, rgb[1] as u64);
    text.append(";");
    push_decimal(&mut text, rgb[2] as u64);
    text.append("m");
    assert(text@ =~= rgb_text(rgb, bg));
    text
}

/// Builds the sequence that selects the palette colour nearest to a colour.
pub fn ansi_indexed(rgb: [u8; 4], bg: bool) -> (text: String)
    ensures
        text@ == indexed_text(rgb, bg),
{
    let index = palette_index(rgb[0], rgb[1], rgb[2]);
    let mut text = if bg {
        String::from_str("\x1b[48;5;")
    } else {
        String::from_str("\x1b[38;5;")
    };
    push_decimal(&mut text, index as u64);
    text.append("m");
    assert(text@ =~= indexed_text(rgb, bg));
    text
}

/// Builds the sequence that selects a colour, in 24 bits where `truecolor`
/// says that the terminal shows them.
pub fn ansi_color(rgb: [u8; 4], bg: bool, truecolor: bool) -> (text: String)
    ensures
        text@ == color_text(rgb, bg, truecolor),
{
    if truecolor {
        ansi_rgb(rgb, bg)
    } else {
        ansi_indexed(rgb, bg)
    }
}

/// What `image::load_from_memory` makes of an image's bytes, as RGBA pixels
/// (`DynamicImage::to_rgba8`): the width, the height and the pixels, or
/// nothing where it fails.
pub uninterp spec fn decoded_image(data: Seq<u8>) -> Option<FrameView>;

/// Decodes an image with `image::load_from_memory` and `to_rgba8`. The crate
/// guesses the format from the first bytes and decodes from the bytes alone;
/// the contract names what it gives. The buffer it returns holds `width *
/// height` pixels.
#[verifier::external_body]
pub(crate) fn decode(buffer: &[u8]) -> (decoded: Result<Frame, image::ImageError>)
    ensures
        match decoded {
            Ok(frame) => frame.wf() && decoded_image(buffer@) == Some(frame@),
            Err(_) => decoded_image(buffer@) is None,
        },
{
    let rgba = image::load_from_memory(buffer)?.to_rgba8();
    Ok(Frame { width: rgba.width(), height: rgba.height(), pixels: rgba.pixels().map(|p| p.0).collect() })
}

/// The pixels that `image::imageops::resize` with the triangle filter makes of
/// an RGBA image of `width` by `height` pixels, for a new width and height.
pub uninterp spec fn resized_pixels(
    pixels: Seq<[u8; 4]>,
    width: u32,
    height: u32,
    new_width: u32,
    new_height: u32,
) -> Seq<[u8; 4]>;

/// Whether an image of `width` by `height` pixels can be resized to
/// `new_width` by `new_height` pixels: the image has pixels, and neither the
/// result, at four bytes a pixel, nor the image of the old width and the new
/// height that the resizing holds in between, at four floats a pixel, is more
/// than a buffer can hold.
pub open spec fn resizable(width: u32, height: u32, new_width: u32, new_height: u32) -> bool {
    &&& width >= 1
    &&& height >= 1
    &&& 16 * (width as nat) * (new_height as nat) <= isize::MAX
    &&& 4 * (new_width as nat) * (new_height as nat) <= isize::MAX
}

/// Resizes an image to exactly `width` by `height` pixels, with
/// `DynamicImage::resize_exact` and the triangle filter. The crate computes
/// the new pixels from the old ones and the sizes alone, and returns an image
/// of the size asked for; the contract names its pixels. It is called on
/// images that have pixels and on sizes whose buffers a vector can hold: on
/// others the crate's buffers cannot be made.
#[verifier::external_body]
pub fn resize(image: &Frame, width: u32, height: u32) -> (resized: Frame)
    requires
        image.wf(),
        resizable(image.width, image.height, width, height),
    ensures
        resized.wf(),
        resized.width == width,
        resized.height == height,
        resized.pixels@ == resized_pixels(image.pixels@, image.width, image.height, width, height),
{
    let raw = image.pixels.concat();
    let rgba = image::RgbaImage::from_raw(image.width, image.height, raw).unwrap();
    let resized = image::DynamicImage::ImageRgba8(rgba)
        .resize_exact(width, height, image::imageops::Triangle)
        .to_rgba8();
    Frame { width, height, pixels: resized.pixels().map(|p| p.0).collect() }
}

/// The PNG file that `image::codecs::png::PngEncoder` writes for RGBA pixels
/// of the given width and height, or nothing where it fails.
pub uninterp spec fn png_encoded(pixels: Seq<[u8; 4]>, width: u32, height: u32) -> Option<Seq<u8>>;

/// Encodes an image as a PNG file in memory, with `PngEncoder::write_image`
/// on the pixels as RGBA bytes. The file depends on the pixels and the size
/// alone; the contract names it. The crate stops on a size that is not that
/// of the pixels: the size is asked to be the image's own.
///
/// image is mainly supposed to be a GIF here
#[verifier::external_body]
pub fn convert_to_image_buffer(image: &Frame, width: u32, height: u32) -> (encoded: Result<
    Vec<u8>,
    image::ImageError,
>)
    requires
        image.wf(),
        width == image.width,
        height == image.height,
    ensures
        match encoded {
            Ok(buffer) => png_encoded(image.pixels@, width, height) == Some(buffer@),
            Err(_) => png_encoded(image.pixels@, width, height) is None,
        },
{
    let mut buffer = Vec::new();
    let encoder = image::codecs::png::PngEncoder::new(&mut buffer);
    let raw = image.pixels.concat();
    image::ImageEncoder::write_image(encoder, &raw, width, height, image::ColorType::Rgba8)?;
    Ok(buffer)
}

/// Whether an image's bytes begin as a GIF file does.
pub open spec fn is_gif(data: Seq<u8>) -> bool {
    ||| starts_with(data, seq![0x47u8, 0x49, 0x46, 0x38, 0x39, 0x61])
    ||| starts_with(data, seq![0x47u8, 0x49, 0x46, 0x38, 0x37, 0x61])
}

/// Whether `data` begins with `prefix`.
pub open spec fn starts_with(data: Seq<u8>, prefix: Seq<u8>) -> bool {
    data.len() >= prefix.len() && data.subrange(0, prefix.len() as int) == prefix
}

/// Whether `image::guess_format` knows the format that an image's first bytes
/// announce.
pub uninterp spec fn format_is_known(data: Seq<u8>) -> bool;

/// Asks `image::guess_format` for the format of an image and tells whether it
/// is GIF. The crate goes by the first bytes: it fails where they announce no
/// format that it knows, and answers GIF for exactly the two signatures of
/// that format, `GIF89a` and `GIF87a`, which no other signature of its table
/// begins.
#[verifier::external_body]
pub(crate) fn guess_gif(buffer: &[u8]) -> (guess: Result<bool, image::ImageError>)
    ensures
        guess is Ok <==> format_is_known(buffer@),
        guess matches Ok(gif) ==> gif == is_gif(buffer@),
        is_gif(buffer@) ==> guess is Ok,
{
    match image::guess_format(buffer)? {
        image::ImageFormat::Gif => Ok(true),
        _ => Ok(false),
    }
}

/// How long a frame of an animation waits before it is shown, as a fraction
/// of milliseconds.
#[derive(Clone, Copy, Debug, PartialEq, Eq, Structural)]
pub struct Delay {
    pub numer: u32,
    pub denom: u32,
}

/// The frames that `image::codecs::gif::GifDecoder` finds in a GIF file, each
/// with the numerator and the denominator of its delay in milliseconds and
/// with its width, height and pixels, or nothing where it fails.
pub uninterp spec fn decoded_frames(data: Seq<u8>) -> Option<Seq<(Delay, FrameView)>>;

/// A frame of an animation: how long it waits, and what it shows.
#[derive(Clone, Debug)]
pub struct AnimationFrame {
    pub delay: Delay,
    pub image: Frame,
}

impl View for AnimationFrame {
    type V = (Delay, FrameView);

    open spec fn view(&self) -> (Delay, FrameView) {
        (self.delay, self.image@)
    }
}

/// Decodes all frames of a GIF file with `GifDecoder::new`, `into_frames` and
/// `collect_frames`. The crate decodes from the bytes alone; the contract
/// names what it gives. Each frame's buffer holds `width * height` pixels.
#[verifier::external_body]
pub(crate) fn decode_frames(buffer: &[u8]) -> (decoded: Result<
    Vec<AnimationFrame>,
    image::ImageError,
>)
    ensures
        match decoded {
            Ok(frames) => {
                &&& decoded_frames(buffer@) == Some(frames@.map_values(|f: AnimationFrame| f@))
                &&& forall|i: int| 0 <= i < frames@.len() ==> (#[trigger] frames@[i]).image.wf()
            },
            Err(_) => decoded_frames(buffer@) is None,
        },
{
    let decoder = image::codecs::gif::GifDecoder::new(buffer)?;
    let frames = image::AnimationDecoder::into_frames(decoder).collect_frames()?;
    Ok(frames.into_iter().map(|f| AnimationFrame {
        delay: Delay { numer: f.delay().numer_denom_ms().0, denom: f.delay().numer_denom_ms().1 },
        image: Frame { width: f.buffer().width(), height: f.buffer().height(), pixels: f.buffer().pixels().map(|p| p.0).collect() },
    }).collect())
}

/// The width and the height that `imagesize::blob_size` reads from an image's
/// header, or nothing where it fails.
pub uninterp spec fn probed_size(data: Seq<u8>) -> Option<(usize, usize)>;

/// Reads an image's size from its header with `imagesize::blob_size`. The
/// crate reads the bytes alone; the contract names what it gives.
#[verifier::external_body]
pub(crate) fn probe_size(buffer: &[u8]) -> (probed: Result<(usize, usize), imagesize::ImageError>)
    ensures
        match probed {
            Ok(size) => probed_size(buffer@) == Some(size),
            Err(_) => probed_size(buffer@) is None,
        },
{
    let size = imagesize::blob_size(buffer)?;
    Ok((size.width, size.height))
}

/// The text that the `base64` crate's standard engine, with the standard
/// alphabet and with padding, encodes bytes to.
pub uninterp spec fn base64_standard(data: Seq<u8>) -> Seq<char>;

/// Whether `len` bytes can be encoded: four characters stand for every three
/// bytes or part of three, and a buffer must hold them.
pub open spec fn base64_fits(len: nat) -> bool {
    4 * ((len + 2) / 3) <= isize::MAX
}

/// Tells whether `len` bytes can be encoded.
pub fn base64_encodable(len: usize) -> (fits: bool)
    ensures
        fits == base64_fits(len as nat),
{
    let groups: u128 = (len as u128 + 2) / 3;
    4 * groups <= isize::MAX as u128
}

/// Encodes bytes with `Engine::encode` of `base64::engine::general_purpose::
/// STANDARD`. The text depends on the bytes alone; the contract names it.
/// The crate stops where it cannot make a buffer for the text: the bytes are
/// asked to be few enough.
#[verifier::external_body]
pub(crate) fn encode_base64(data: &[u8]) -> (text: String)
    requires
        base64_fits(data@.len()),
    ensures
        text@ == base64_standard(data@),
{
    base64::Engine::encode(&base64::engine::general_purpose::STANDARD, data)
}

} // verus!
