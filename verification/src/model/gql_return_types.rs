//! The shape of a gateway's answer to a blocks query.
use vstd::prelude::*;

verus! {

/// Whether a GraphQL connection has more pages.
#[derive(Clone, Copy)]
pub struct PageInfo {
    pub has_next_page: bool,
}

/// A block's timestamp and height as the gateway reports them.
#[derive(Clone, Copy)]
pub struct Node {
    pub timestamp: i64,
    pub height: i64,
}

#[derive(Clone, Copy)]
pub struct Edge {
    pub node: Node,
}

pub struct BlocksTransactions {
    pub page_info: Option<PageInfo>,
    pub edges: Vec<Edge>,
}

pub struct Blocks {
    pub blocks: BlocksTransactions,
}

pub struct DataBlocks {
    pub data: Blocks,
}

} // verus!
