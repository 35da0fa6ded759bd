use vstd::prelude::*;

use crate::block::{block_of_char, BlockType};

verus! {

/// A cell of the voxel grid: `x` is the column, `y` the layer, `z` the row.
#[derive(Clone, Copy, Debug, PartialEq, Eq, Hash, Structural)]
pub struct GridPos {
    pub x: usize,
    pub y: usize,
    pub z: usize,
}

/// A typed block standing at one grid cell.
#[derive(Clone, Copy, Debug, PartialEq, Eq, Hash, Structural)]
pub struct Block {
    pub block_type: BlockType,
    pub position: GridPos,
}

/// Whether a layer break (two line feeds in a row) starts at index `i`.
pub open spec fn layer_break_at(s: Seq<char>, i: int) -> bool {
    0 <= i && i + 1 < s.len() && s[i] == '\n' && s[i + 1] == '\n'
}

/// The blocks found in `s` from index `i` on, when the scan stands in layer
/// `layer`, row `row` and column `col`. Two line feeds in a row close a layer
/// (leftmost pairs first), a single line feed closes a row, and every other
/// character takes one column, yielding a block when it names one.
pub open spec fn blocks_from(s: Seq<char>, i: int, layer: nat, row: nat, col: nat) -> Seq<Block>
    decreases s.len() - i,
{
    if i < 0 || i >= s.len() {
        Seq::empty()
    } else if layer_break_at(s, i) {
        blocks_from(s, i + 2, layer + 1, 0, 0)
    } else if s[i] == '\n' {
        blocks_from(s, i + 1, layer, row + 1, 0)
    } else {
        let rest = blocks_from(s, i + 1, layer, row, col + 1);
        match block_of_char(s[i]) {
            Some(t) => seq![Block { block_type: t, position: GridPos { x: col as usize, y: layer as usize, z: row as usize } }] + rest,
            None => rest,
        }
    }
}

/// The blocks of a whole layout text, in the order they are met.
pub open spec fn layout_blocks(s: Seq<char>) -> Seq<Block> {
    blocks_from(s, 0, 0, 0, 0)
}

/// Reads a layered layout: layers are separated by a blank line and stack
/// upward, each line of a layer is a row, each character of a row a column.
/// Characters that name no block are empty space.
pub fn parse(text: &str) -> (r: Vec<Block>)
    ensures
        r@ == layout_blocks(text@),
{
    let n = text.unicode_len();
    let mut out: Vec<Block> = Vec::new();
    let mut i: usize = 0;
    let mut layer: usize = 0;
    let mut row: usize = 0;
    let mut col: usize = 0;
    while i < n
        invariant
            n == text@.len(),
            i <= n,
            layer <= i,
            row <= i,
            col <= i,
            layout_blocks(text@) == out@ + blocks_from(text@, i as int, layer as nat, row as nat, col as nat),
        decreases n - i,
    {
        let ghost s = text@;
        let ghost before = out@;
        let c = text.get_char(i);
        if c == '\n' && i + 1 < n && text.get_char(i + 1) == '\n' {
            layer = layer + 1;
            row = 0;
            col = 0;
            i = i + 2;
        } else if c == '\n' {
            row = row + 1;
            col = 0;
            i = i + 1;
        } else {
            match BlockType::from_char(c) {
                Some(t) => {
                    let b = Block { block_type: t, position: GridPos { x: col, y: layer, z: row } };
                    out.push(b);
                    assert(before.push(b) + blocks_from(s, i + 1, layer as nat, row as nat, (col + 1) as nat)
                        =~= before + (seq![b] + blocks_from(s, i + 1, layer as nat, row as nat, (col + 1) as nat)));
                },
                None => {},
            }
            col = col + 1;
            i = i + 1;
        }
    }
    out
}

/// Parsing is a function of the text alone: the same text always gives the
/// same blocks in the same order.
pub proof fn lemma_parse_deterministic(a: Seq<char>, b: Seq<char>)
    requires
        a == b,
    ensures
        layout_blocks(a) == layout_blocks(b),
{
}

/// A one-character layout yields exactly one block at the origin when the
/// character names a block kind, and nothing otherwise.
pub proof fn lemma_single_cell(c: char)
    ensures
        layout_blocks(seq![c]) == (match block_of_char(c) {
            Some(t) => seq![Block { block_type: t, position: GridPos { x: 0, y: 0, z: 0 } }],
            None => Seq::<Block>::empty(),
        }),
{
    let s = seq![c];
    assert(!layer_break_at(s, 0));
    assert(blocks_from(s, 1, 0, 0, 1) == Seq::<Block>::empty());
    assert(blocks_from(s, 1, 0, 1, 0) == Seq::<Block>::empty());
    match block_of_char(c) {
        Some(t) => {
            let b = Block { block_type: t, position: GridPos { x: 0, y: 0, z: 0 } };
            assert(seq![b] + Seq::<Block>::empty() =~= seq![b]);
        },
        None => {},
    }
}

/// The diorama that ships with the program: a small house with a terracotta
/// shell, glass windows, a red roof and a tree.
pub const DIORAMA: &'static str = r#"########
##TTTT##
#TMMMMT#
#TMMMMT#
#TMMMMT#
#TMMMMT#
G#TTTT#G
G######G
G#####G#
#GGGG#G#
##GGGG##

########
#TTTTTT#
#TMMMMT#
#TMMMMT#
#TMMMMT#
#TMMMMT#
#TTTTTT#
#GGMMGG#
#GGGGG##
#####G##
########

##TTTT##
#T####T#
T######T
T######T
T######T
T######T
#T####T#
##T##T##
########
########
########

#TTTTTT#
T######T
W######W
T######T
T######T
W######W
T######T
#TT##TT#
########
########
########

#TTTTTT#
T######T
W######W
T######R
T######R
W######W
T######R
#TTTTRT#
########
########
########

#TTTTTT#
T######T
W######W
T######R
T######R
W######W
T######C
#TRTRRR#
########
########
########

#TTTTTT#
T######T
T######C
T######R
C######C
T######C
T######C
#RTCRCC#
########
########
########

########
#TTTTTR#
#TTTTRR#
#TTRTRT#
#RRTOCR#
#RTRCRC#
#TRCRCC#
########
########
########
########

########
########
####VL##
####L###
###O####
########
########
########
########
########
########

#####L##
####LL##
#####V##
########
###O####
##O#####
########
########
########
########
########

#####L##
#####VL#
########
########
########
##O#####
########
########
########
########
########

#####V##
########
########
########
########
########
########
########
########
########
########"#;

/// The blocks of the shipped diorama.
pub fn parse_diorama() -> (r: Vec<Block>)
    ensures
        r@ == layout_blocks(DIORAMA@),
{
    parse(DIORAMA)
}

} // verus!
