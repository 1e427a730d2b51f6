//! The catalog of pieces. A piece is a grid of four rows of four cells, a
//! cell holding 1 where the piece has a block and 0 where it has none.

use vstd::prelude::*;

verus! {

/// One piece: its rows from top to bottom, each row from left to right.
pub type Tetrimino = Vec<Vec<u8>>;

/// Rows of a piece, and cells in a row.
pub const SIDE: usize = 4;

/// Number of pieces in the catalog.
pub const PIECES: usize = 4;

/// The cells of a piece as a sequence of rows.
pub open spec fn cells_of(mino: &Tetrimino) -> Seq<Seq<u8>> {
    Seq::new(mino@.len(), |i: int| mino@[i]@)
}

/// Four rows of four cells.
pub open spec fn is_grid(cells: Seq<Seq<u8>>) -> bool {
    &&& cells.len() == SIDE
    &&& forall|i: int| 0 <= i < SIDE ==> (#[trigger] cells[i]).len() == SIDE
}

/// The cell in row `i`, column `j` holds a block.
pub open spec fn occupied(cells: Seq<Seq<u8>>, i: int, j: int) -> bool {
    cells[i][j] == 1
}

/// A grid of zeros and ones with at least one block.
pub open spec fn is_shape(cells: Seq<Seq<u8>>) -> bool {
    &&& is_grid(cells)
    &&& forall|i: int, j: int| 0 <= i < SIDE && 0 <= j < SIDE ==> #[trigger] cells[i][j] <= 1
    &&& exists|i: int, j: int| 0 <= i < SIDE && 0 <= j < SIDE && occupied(cells, i, j)
}

/// The square.
pub open spec fn square() -> Seq<Seq<u8>> {
    seq![
        seq![1u8, 1u8, 0u8, 0u8],
        seq![1u8, 1u8, 0u8, 0u8],
        seq![0u8, 0u8, 0u8, 0u8],
        seq![0u8, 0u8, 0u8, 0u8],
    ]
}

/// The hook: three blocks down and one to the right of the last.
pub open spec fn hook() -> Seq<Seq<u8>> {
    seq![
        seq![1u8, 0u8, 0u8, 0u8],
        seq![1u8, 0u8, 0u8, 0u8],
        seq![1u8, 1u8, 0u8, 0u8],
        seq![0u8, 0u8, 0u8, 0u8],
    ]
}

/// The bar: four blocks down.
pub open spec fn bar() -> Seq<Seq<u8>> {
    seq![
        seq![1u8, 0u8, 0u8, 0u8],
        seq![1u8, 0u8, 0u8, 0u8],
        seq![1u8, 0u8, 0u8, 0u8],
        seq![1u8, 0u8, 0u8, 0u8],
    ]
}

/// The step: two blocks down, then two more one column to the right.
pub open spec fn step() -> Seq<Seq<u8>> {
    seq![
        seq![1u8, 0u8, 0u8, 0u8],
        seq![1u8, 1u8, 0u8, 0u8],
        seq![0u8, 1u8, 0u8, 0u8],
        seq![0u8, 0u8, 0u8, 0u8],
    ]
}

/// The pieces of the game, in the order of their indices.
pub open spec fn catalog() -> Seq<Seq<Seq<u8>>> {
    seq![square(), hook(), bar(), step()]
}

/// The catalog: the pieces that can fall.
pub struct Game {
    pub tetriminoes: Vec<Tetrimino>,
}

impl View for Game {
    type V = Seq<Seq<Seq<u8>>>;

    open spec fn view(&self) -> Seq<Seq<Seq<u8>>> {
        Seq::new(self.tetriminoes@.len(), |k: int| cells_of(&self.tetriminoes@[k]))
    }
}

impl Game {
    /// The catalog holds `PIECES` pieces, each of them a shape.
    pub open spec fn wf(&self) -> bool {
        &&& self@.len() == PIECES
        &&& forall|k: int| 0 <= k < PIECES ==> is_shape(#[trigger] self@[k])
    }

    /// The catalog of the four pieces.
    pub fn new() -> (game: Game)
        ensures
            game@ == catalog(),
            game.wf(),
    {
        let tetriminoes: Vec<Tetrimino> = vec![
            vec![
                vec![1, 1, 0, 0],
                vec![1, 1, 0, 0],
                vec![0, 0, 0, 0],
                vec![0, 0, 0, 0],
            ],
            vec![
                vec![1, 0, 0, 0],
                vec![1, 0, 0, 0],
                vec![1, 1, 0, 0],
                vec![0, 0, 0, 0],
            ],
            vec![
                vec![1, 0, 0, 0],
                vec![1, 0, 0, 0],
                vec![1, 0, 0, 0],
                vec![1, 0, 0, 0],
            ],
            vec![
                vec![1, 0, 0, 0],
                vec![1, 1, 0, 0],
                vec![0, 1, 0, 0],
                vec![0, 0, 0, 0],
            ],
        ];
        let game = Game { tetriminoes };
        proof {
            assert(game@[0] =~~= square());
            assert(game@[1] =~~= hook());
            assert(game@[2] =~~= bar());
            assert(game@[3] =~~= step());
            assert(game@ =~= catalog());
            catalog_holds_shapes();
        }
        game
    }

    /// A copy of the piece with the given index.
    pub fn tetrimino(&self, index: usize) -> (mino: Tetrimino)
        requires
            index < self@.len(),
        ensures
            cells_of(&mino) == self@[index as int],
    {
        copy_mino(&self.tetriminoes[index])
    }
}

/// A copy of one row of cells.
fn copy_row(row: &Vec<u8>) -> (copy: Vec<u8>)
    ensures
        copy@ == row@,
{
    let mut copy: Vec<u8> = Vec::new();
    let mut j: usize = 0;
    while j < row.len()
        invariant
            j <= row@.len(),
            copy@ == row@.take(j as int),
        decreases row@.len() - j,
    {
        copy.push(row[j]);
        j += 1;
        assert(copy@ =~= row@.take(j as int));
    }
    assert(row@.take(j as int) =~= row@);
    copy
}

/// A copy of a piece, cell by cell.
pub fn copy_mino(mino: &Tetrimino) -> (copy: Tetrimino)
    ensures
        cells_of(&copy) == cells_of(mino),
{
    let mut copy: Tetrimino = Vec::new();
    let mut i: usize = 0;
    while i < mino.len()
        invariant
            i <= mino@.len(),
            copy@.len() == i,
            forall|k: int| 0 <= k < i ==> (#[trigger] copy@[k])@ == mino@[k]@,
        decreases mino@.len() - i,
    {
        let row: Vec<u8> = copy_row(&mino[i]);
        copy.push(row);
        i += 1;
    }
    assert(cells_of(&copy) =~= cells_of(mino));
    copy
}

/// Every piece of the catalog is a grid of four by four cells, each 0 or 1,
/// with at least one block.
pub proof fn catalog_holds_shapes()
    ensures
        catalog().len() == PIECES,
        forall|k: int| 0 <= k < PIECES ==> is_shape(#[trigger] catalog()[k]),
{
    assert(occupied(square(), 0, 0));
    assert(occupied(hook(), 0, 0));
    assert(occupied(bar(), 0, 0));
    assert(occupied(step(), 0, 0));
    assert(is_shape(catalog()[0]));
    assert(is_shape(catalog()[1]));
    assert(is_shape(catalog()[2]));
    assert(is_shape(catalog()[3]));
}

} // verus!
