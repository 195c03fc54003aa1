use cu::client::ao_block::{
    create_insert_blocks_query, create_select_blocks_query, edges_to_nodes, save_blocks_query,
    to_block_docs, BlockPaging, PagingAction,
};
use cu::model::gql_return_types::{Edge, Node};
use cu::model::model::BlockSchema;

fn blocks() -> Vec<BlockSchema> {
    vec![
        BlockSchema { height: 123, timestamp: 123 },
        BlockSchema { height: 124, timestamp: 345 },
        BlockSchema { height: 125, timestamp: 456 },
    ]
}

fn edge(height: i64, timestamp: i64) -> Edge {
    Edge { node: Node { height, timestamp } }
}

#[test]
fn ao_block_test_save_the_blocks() {
    let blocks = blocks();
    let block_docs = to_block_docs(&blocks);
    let query = create_insert_blocks_query(&block_docs);
    assert_eq!(query.parameters.len(), blocks.len());
    for i in 0..query.parameters.len() {
        assert!(query.parameters[i][0] == blocks[i].height);
        assert!(query.parameters[i][1] == blocks[i].height);
        assert!(query.parameters[i][2] == blocks[i].timestamp);
    }
}

#[test]
fn should_noop_a_block_if_it_already_exists() {
    let blocks = blocks();
    let query = create_insert_blocks_query(&to_block_docs(&blocks));
    assert!(query.sql.contains("INSERT OR IGNORE"));
}

#[test]
fn insert_placeholders_number_the_parameters() {
    let query = create_insert_blocks_query(&to_block_docs(&blocks()));
    assert_eq!(
        query.sql,
        "\n                INSERT OR IGNORE INTO blocks\n                (id, height, timestamp)\n                VALUES\n                ($1, $2, $3),\n($4, $5, $6),\n($7, $8, $9)\n            "
    );
    let one = create_insert_blocks_query(&to_block_docs(&vec![BlockSchema { height: 1, timestamp: 2 }]));
    assert!(one.sql.contains("($1, $2, $3),\n\n"));
}

#[test]
fn test_should_do_nothing_if_no_blocks_to_save() {
    let blocks: Vec<BlockSchema> = vec![];
    assert!(save_blocks_query(&blocks).is_none());
    assert!(save_blocks_query(&self::blocks()).is_some());
}

#[test]
fn test_find_the_blocks() {
    let query = create_select_blocks_query(123, 456);
    assert!(query.sql.contains("height >= ?"));
    assert!(query.sql.contains("timestamp <= ?"));
    assert!(query.sql.contains("ORDER BY height ASC"));
    assert_eq!(query.parameters, vec![vec![123, 456]]);
}

#[test]
fn paging_stops_at_the_first_block_past_the_timestamp() {
    let mut paging = BlockPaging::new(300);
    let action = paging.receive_page(true, vec![edge(1, 100), edge(2, 200), edge(3, 301), edge(4, 250)]);
    assert!(matches!(action, PagingAction::Finished));
    assert_eq!(paging.collected.len(), 2);
    assert_eq!(paging.collected[1].node.height, 2);
}

#[test]
fn paging_asks_for_the_next_page_from_the_last_height() {
    let mut paging = BlockPaging::new(1000);
    match paging.receive_page(true, vec![edge(1, 100), edge(7, 200)]) {
        PagingAction::FetchNext(h) => assert_eq!(h, 7),
        PagingAction::Finished => panic!("expected another page"),
    }
    let action = paging.receive_page(false, vec![edge(8, 300)]);
    assert!(matches!(action, PagingAction::Finished));
    assert_eq!(paging.collected.len(), 3);
    assert!(paging.collected.iter().all(|e| e.node.timestamp <= 1000));
}

#[test]
fn nodes_carry_milliseconds() {
    let nodes = edges_to_nodes(&vec![edge(5, 1702677252)]);
    assert_eq!(nodes[0].height, 5);
    assert_eq!(nodes[0].timestamp, 1702677252000);
}
