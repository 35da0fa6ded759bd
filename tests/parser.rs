use voxel_diorama::block::BlockType;
use voxel_diorama::diorama::{parse, parse_diorama, Block, GridPos, DIORAMA};

fn block(t: BlockType, x: usize, y: usize, z: usize) -> Block {
    Block { block_type: t, position: GridPos { x, y, z } }
}

#[test]
fn parse_is_deterministic() {
    let text = "TR#\n#WG\n\nC O\nVLM";
    assert_eq!(parse(text), parse(text));
    assert_eq!(parse_diorama(), parse_diorama());
}

#[test]
fn every_table_character_gives_one_block_at_origin() {
    let table = [
        ('T', BlockType::Terracotta),
        ('R', BlockType::RedWool),
        ('W', BlockType::WhiteGlass),
        ('G', BlockType::Grass),
        ('C', BlockType::ConcretePowder),
        ('O', BlockType::OakWood),
        ('V', BlockType::GreenWool),
        ('L', BlockType::Leaves),
        ('M', BlockType::MangroveWood),
    ];
    for (c, t) in table {
        let text = c.to_string();
        assert_eq!(parse(&text), vec![block(t, 0, 0, 0)]);
    }
}

#[test]
fn other_characters_give_nothing() {
    for text in ["#", " ", "X", "t", "\n", "é"] {
        assert!(parse(text).is_empty(), "{:?}", text);
    }
}

#[test]
fn empty_text_gives_nothing() {
    assert!(parse("").is_empty());
}

#[test]
fn layers_stack_upward() {
    assert_eq!(
        parse("T\n\nG"),
        vec![block(BlockType::Terracotta, 0, 0, 0), block(BlockType::Grass, 0, 1, 0)]
    );
}

#[test]
fn columns_follow_characters() {
    assert_eq!(
        parse("T#R"),
        vec![block(BlockType::Terracotta, 0, 0, 0), block(BlockType::RedWool, 2, 0, 0)]
    );
}

#[test]
fn rows_follow_lines() {
    assert_eq!(
        parse("#T\nG\n  M"),
        vec![
            block(BlockType::Terracotta, 1, 0, 0),
            block(BlockType::Grass, 0, 0, 1),
            block(BlockType::MangroveWood, 2, 0, 2),
        ]
    );
}

#[test]
fn three_line_feeds_open_a_layer_and_a_row() {
    assert_eq!(
        parse("T\n\n\nG"),
        vec![block(BlockType::Terracotta, 0, 0, 0), block(BlockType::Grass, 0, 1, 1)]
    );
}

#[test]
fn four_line_feeds_open_two_layers() {
    assert_eq!(
        parse("T\n\n\n\nG"),
        vec![block(BlockType::Terracotta, 0, 0, 0), block(BlockType::Grass, 0, 2, 0)]
    );
}

#[test]
fn carriage_returns_do_not_shift_columns() {
    assert_eq!(
        parse("T\r\nRG\r\n"),
        vec![
            block(BlockType::Terracotta, 0, 0, 0),
            block(BlockType::RedWool, 0, 0, 1),
            block(BlockType::Grass, 1, 0, 1),
        ]
    );
}

#[test]
fn shipped_diorama() {
    let blocks = parse_diorama();
    assert_eq!(blocks, parse(DIORAMA));
    assert_eq!(blocks.len(), 258);
    assert_eq!(blocks[0], block(BlockType::Terracotta, 2, 0, 1));
    assert_eq!(blocks.iter().map(|b| b.position.y).max(), Some(11));
    assert_eq!(blocks.last().unwrap().block_type, BlockType::GreenWool);
    assert_eq!(blocks.last().unwrap().position, GridPos { x: 5, y: 11, z: 0 });
}
