use vstd::prelude::*;

use crate::mode::Selection;
use crate::renderer::{in_grid, Cell, Renderer};

verus! {

/// The shape characters of row `r` of a selection among its first `n` columns;
/// background and cells off the grid are left out.
pub open spec fn row_text(g: Seq<Seq<Cell>>, s: Selection, r: int, n: int) -> Seq<char>
    decreases n,
{
    if n <= 0 {
        seq![]
    } else {
        let x = s.x + n - 1;
        let y = s.y + r;
        row_text(g, s, r, n - 1) + if in_grid(g, x, y) && g[x][y].shape_id is Some {
            seq![g[x][y].character]
        } else {
            seq![]
        }
    }
}

/// The first `k` rows of the selection, each ended by a newline.
pub open spec fn selection_text_spec(g: Seq<Seq<Cell>>, s: Selection, k: int) -> Seq<char>
    decreases k,
{
    if k <= 0 {
        seq![]
    } else {
        selection_text_spec(g, s, k - 1) + row_text(g, s, k - 1, s.width as int) + seq!['\n']
    }
}

/// What a copy of the selection holds: the characters that shapes drew in it, row by
/// row, one line per row.
pub fn selection_text(renderer: &Renderer, selection: &Selection) -> (r: Vec<char>)
    ensures
        r@ == selection_text_spec(renderer.current(), *selection, selection.height as int),
{
    let ghost g = renderer.current();
    let mut content: Vec<char> = Vec::new();
    let mut row: i32 = 0;
    while row < selection.height
        invariant
            g == renderer.current(),
            0 <= row,
            row <= selection.height || row == 0,
            content@ == selection_text_spec(g, *selection, row as int),
        decreases selection.height - row,
    {
        let ghost start = content@;
        let mut col: i32 = 0;
        while col < selection.width
            invariant
                g == renderer.current(),
                0 <= row < selection.height,
                0 <= col,
                col <= selection.width || col == 0,
                content@ == start + row_text(g, *selection, row as int, col as int),
            decreases selection.width - col,
        {
            let x: i64 = col as i64 + selection.x as i64;
            let y: i64 = row as i64 + selection.y as i64;
            if 0 <= x && 0 <= y && (x as u64) < renderer.state.len() as u64 {
                assert(renderer.state@[x as int]@ == g[x as int]);
                if (y as u64) < renderer.state[x as usize].len() as u64 {
                    let cell = renderer.state[x as usize][y as usize];
                    if cell.shape_id.is_some() {
                        content.push(cell.character);
                    }
                }
            }
            col = col + 1;
            assert(content@ =~= start + row_text(g, *selection, row as int, col as int));
        }
        content.push('\n');
        row = row + 1;
        assert(content@ =~= selection_text_spec(g, *selection, row as int));
    }
    content
}

} // verus!
