//! Blocks: the SQL statements that store and find them, and the paging
//! through a gateway's block listing up to a timestamp.
use vstd::prelude::*;
use crate::client::sqlite::BLOCKS_TABLE;
use crate::model::gql_return_types::{Edge, Node};
use crate::model::model::BlockSchema;
use crate::text::{concat3, nat_decimal, u128_to_string};

verus! {

/// An SQL statement and its rows of integer parameters.
pub struct Query {
    pub sql: String,
    pub parameters: Vec<Vec<i64>>,
}

/// A block as stored: its id is its height.
#[derive(Clone, Copy)]
pub struct BlockDocSchema {
    /// id is actually the height value of BlockSchema
    pub id: i64,
    pub height: i64,
    pub timestamp: i64,
}

pub const INSERT_BLOCKS_HEAD: &'static str = "\n                INSERT OR IGNORE INTO ";

pub const INSERT_BLOCKS_MIDDLE: &'static str = "\n                (id, height, timestamp)\n                VALUES\n                ";

pub const INSERT_BLOCKS_TAIL: &'static str = "\n            ";

pub const SELECT_BLOCKS_HEAD: &'static str = "\n                SELECT height, timestamp\n                FROM ";

pub const SELECT_BLOCKS_TAIL: &'static str = "\n                WHERE\n                    height >= ?\n                AND timestamp <= ?\n                ORDER BY height ASC\n            ";

/// The placeholder group of the `k`-th row: `($a, $b, $c)` with the three
/// positions that follow those of the earlier rows.
pub open spec fn placeholder_group(k: nat) -> Seq<char> {
    "($"@ + nat_decimal(3 * k + 1) + ", $"@ + nat_decimal(3 * k + 2) + ", $"@ + nat_decimal(
        3 * k + 3,
    ) + ")"@
}

/// What follows the `k`-th of `n` placeholder groups: a comma and a line
/// break, except after the last of several groups.
pub open spec fn group_separator(k: nat, n: nat) -> Seq<char> {
    if k == 0 || k + 1 != n {
        ",\n"@
    } else {
        Seq::empty()
    }
}

/// The first `i` placeholder groups of `n`, each with its separator.
pub open spec fn placeholders(n: nat, i: nat) -> Seq<char>
    decreases i,
{
    if i == 0 {
        Seq::empty()
    } else {
        placeholders(n, (i - 1) as nat) + placeholder_group((i - 1) as nat) + group_separator(
            (i - 1) as nat,
            n,
        )
    }
}

/// The insert of `n` rows of blocks.
pub open spec fn insert_blocks_sql(n: nat) -> Seq<char> {
    INSERT_BLOCKS_HEAD@ + BLOCKS_TABLE@ + INSERT_BLOCKS_MIDDLE@ + placeholders(n, n)
        + INSERT_BLOCKS_TAIL@
}

/// The parameters of one stored block: id, height, timestamp.
pub open spec fn block_doc_row(b: BlockDocSchema) -> Seq<i64> {
    seq![b.id, b.height, b.timestamp]
}

/// The insert that stores `blocks`, ignoring those stored already: one
/// placeholder group per block, with the block's id, height and timestamp.
pub fn create_insert_blocks_query(blocks: &Vec<BlockDocSchema>) -> (q: Query)
    ensures
        q.sql@ == insert_blocks_sql(blocks.len() as nat),
        q.parameters.len() == blocks.len(),
        forall|i: int|
            0 <= i < blocks.len() ==> (#[trigger] q.parameters[i])@ == block_doc_row(blocks[i]),
{
    let n = blocks.len();
    let mut placeholder = String::new();
    let mut parameters: Vec<Vec<i64>> = Vec::new();
    let mut last_param: u128 = 0;
    let mut i: usize = 0;
    while i < n
        invariant
            n == blocks.len(),
            i <= n,
            last_param == 3 * i,
            placeholder@ == placeholders(n as nat, i as nat),
            parameters.len() == i,
            forall|j: int|
                0 <= j < i ==> (#[trigger] parameters[j])@ == block_doc_row(blocks[j]),
        decreases n - i,
    {
        let first = last_param + 1;
        let second = first + 1;
        let third = second + 1;
        let ghost before = placeholder@;
        placeholder.append("($");
        placeholder.append(u128_to_string(first).as_str());
        placeholder.append(", $");
        placeholder.append(u128_to_string(second).as_str());
        placeholder.append(", $");
        placeholder.append(u128_to_string(third).as_str());
        placeholder.append(")");
        if i == 0 || i + 1 != n {
            placeholder.append(",\n");
        }
        assert(placeholder@ =~= before + placeholder_group(i as nat) + group_separator(
            i as nat,
            n as nat,
        ));
        let block = &blocks[i];
        let mut row: Vec<i64> = Vec::new();
        row.push(block.id);
        row.push(block.height);
        row.push(block.timestamp);
        assert(row@ =~= block_doc_row(blocks[i as int]));
        parameters.push(row);
        last_param = third;
        i = i + 1;
    }
    let mut sql = concat3(INSERT_BLOCKS_HEAD, BLOCKS_TABLE, INSERT_BLOCKS_MIDDLE);
    sql.append(placeholder.as_str());
    sql.append(INSERT_BLOCKS_TAIL);
    Query { sql, parameters }
}

/// The query for the stored blocks from `min_height` on, up to
/// `max_timestamp`, by height.
pub fn create_select_blocks_query(min_height: i64, max_timestamp: i64) -> (q: Query)
    ensures
        q.sql@ == SELECT_BLOCKS_HEAD@ + BLOCKS_TABLE@ + SELECT_BLOCKS_TAIL@,
        q.parameters.len() == 1,
        q.parameters[0]@ == seq![min_height, max_timestamp],
{
    let mut row: Vec<i64> = Vec::new();
    row.push(min_height);
    row.push(max_timestamp);
    let mut parameters: Vec<Vec<i64>> = Vec::new();
    parameters.push(row);
    let q = Query { sql: concat3(SELECT_BLOCKS_HEAD, BLOCKS_TABLE, SELECT_BLOCKS_TAIL), parameters };
    assert(q.parameters[0]@ =~= seq![min_height, max_timestamp]);
    q
}

/// The stored form of a block: its height is its id.
pub open spec fn block_doc_of(b: BlockSchema) -> BlockDocSchema {
    BlockDocSchema { id: b.height, height: b.height, timestamp: b.timestamp }
}

/// The stored forms of `blocks`, in order.
pub fn to_block_docs(blocks: &Vec<BlockSchema>) -> (docs: Vec<BlockDocSchema>)
    ensures
        docs@ == blocks@.map_values(|b: BlockSchema| block_doc_of(b)),
{
    let mut docs: Vec<BlockDocSchema> = Vec::new();
    let mut i: usize = 0;
    while i < blocks.len()
        invariant
            i <= blocks.len(),
            docs@ == blocks@.take(i as int).map_values(|b: BlockSchema| block_doc_of(b)),
        decreases blocks.len() - i,
    {
        let b = blocks[i];
        docs.push(BlockDocSchema { id: b.height, height: b.height, timestamp: b.timestamp });
        i = i + 1;
        assert(docs@ =~= blocks@.take(i as int).map_values(|b: BlockSchema| block_doc_of(b)));
    }
    assert(blocks@.take(blocks.len() as int) =~= blocks@);
    docs
}

/// The insert that stores `blocks`, or `None` where there are none to
/// store.
pub fn save_blocks_query(blocks: &Vec<BlockSchema>) -> (q: Option<Query>)
    ensures
        blocks.len() == 0 <==> q is None,
        q matches Some(q) ==> {
            &&& q.sql@ == insert_blocks_sql(blocks.len() as nat)
            &&& q.parameters.len() == blocks.len()
            &&& forall|i: int|
                0 <= i < blocks.len() ==> (#[trigger] q.parameters[i])@ == block_doc_row(
                    block_doc_of(blocks[i]),
                )
        },
{
    if blocks.len() == 0 {
        return None;
    }
    let docs = to_block_docs(blocks);
    let q = create_insert_blocks_query(&docs);
    assert forall|i: int| 0 <= i < blocks.len() implies (#[trigger] q.parameters[i])@
        == block_doc_row(block_doc_of(blocks[i])) by {
        assert(docs@[i] == block_doc_of(blocks@[i]));
    }
    Some(q)
}

/// The index of the first edge whose timestamp is past `max_timestamp`.
pub open spec fn first_past(edges: Seq<Edge>, max_timestamp: i64) -> Option<int>
    decreases edges.len(),
{
    if edges.len() == 0 {
        None
    } else if first_past(edges.drop_last(), max_timestamp) is Some {
        first_past(edges.drop_last(), max_timestamp)
    } else if edges.last().node.timestamp > max_timestamp {
        Some(edges.len() - 1)
    } else {
        None
    }
}

proof fn lemma_first_past(edges: Seq<Edge>, max_timestamp: i64)
    ensures
        match first_past(edges, max_timestamp) {
            Some(i) => 0 <= i < edges.len() && edges[i].node.timestamp > max_timestamp && forall|
                j: int,
            | 0 <= j < i ==> edges[j].node.timestamp <= max_timestamp,
            None => forall|j: int| 0 <= j < edges.len() ==> edges[j].node.timestamp <= max_timestamp,
        },
    decreases edges.len(),
{
    if edges.len() > 0 {
        lemma_first_past(edges.drop_last(), max_timestamp);
        assert forall|j: int| 0 <= j < edges.len() - 1 implies edges[j] == edges.drop_last()[j] by {
        }
    }
}

/// The edges of a page that are kept: those before the first one past
/// `max_timestamp`, or all of them where none is.
pub open spec fn kept_edges(edges: Seq<Edge>, max_timestamp: i64) -> Seq<Edge> {
    match first_past(edges, max_timestamp) {
        Some(i) => edges.take(i),
        None => edges,
    }
}

/// The height to fetch the next page from, if another page is to be
/// fetched: none once an edge is past `max_timestamp` or the gateway has no
/// further page, otherwise the last edge's height.
pub open spec fn next_min_height(has_next_page: bool, edges: Seq<Edge>, max_timestamp: i64) -> Option<
    i64,
> {
    if first_past(edges, max_timestamp) is Some || !has_next_page {
        None
    } else {
        Some(edges.last().node.height)
    }
}

/// What to do after a page of the block listing.
pub enum PagingAction {
    /// Fetch the page of blocks from this height on.
    FetchNext(i64),
    /// The listing is complete.
    Finished,
}

/// The paging through a gateway's block listing up to `max_timestamp`: the
/// edges collected so far, none of them past `max_timestamp`.
pub struct BlockPaging {
    pub max_timestamp: i64,
    pub collected: Vec<Edge>,
}

impl BlockPaging {
    /// Every collected edge is at or before `max_timestamp`.
    pub open spec fn wf(&self) -> bool {
        forall|i: int|
            0 <= i < self.collected.len() ==> (#[trigger] self.collected[i]).node.timestamp
                <= self.max_timestamp
    }

    /// A paging that has collected nothing.
    pub fn new(max_timestamp: i64) -> (p: Self)
        ensures
            p.max_timestamp == max_timestamp,
            p.collected@ == Seq::<Edge>::empty(),
            p.wf(),
    {
        BlockPaging { max_timestamp, collected: Vec::new() }
    }

    /// Takes in a page: keeps its edges up to the first one past the
    /// timestamp, and asks for the next page from the last edge's height
    /// where none was past and the gateway has more. A page with more to
    /// come must not be empty.
    pub fn receive_page(&mut self, has_next_page: bool, edges: Vec<Edge>) -> (action: PagingAction)
        requires
            old(self).wf(),
            has_next_page ==> edges.len() > 0,
        ensures
            final(self).wf(),
            final(self).max_timestamp == old(self).max_timestamp,
            final(self).collected@ == old(self).collected@ + kept_edges(
                edges@,
                old(self).max_timestamp,
            ),
            match next_min_height(has_next_page, edges@, old(self).max_timestamp) {
                Some(h) => action == PagingAction::FetchNext(h),
                None => action == PagingAction::Finished,
            },
    {
        proof {
            lemma_first_past(edges@, self.max_timestamp);
        }
        let ghost start = self.collected@;
        let max_timestamp = self.max_timestamp;
        let mut i: usize = 0;
        while i < edges.len()
            invariant
                self.max_timestamp == max_timestamp,
                max_timestamp == old(self).max_timestamp,
                start == old(self).collected@,
                i <= edges.len(),
                self.collected@ == start + edges@.take(i as int),
                forall|j: int| 0 <= j < i ==> edges[j].node.timestamp <= max_timestamp,
                forall|j: int|
                    0 <= j < self.collected.len() ==> (#[trigger] self.collected[j]).node.timestamp
                        <= max_timestamp,
            decreases edges.len() - i,
        {
            if edges[i].node.timestamp > max_timestamp {
                proof {
                    lemma_first_past(edges@, max_timestamp);
                }
                assert(first_past(edges@, max_timestamp) == Some(i as int));
                return PagingAction::Finished;
            }
            self.collected.push(edges[i]);
            i = i + 1;
            assert(self.collected@ =~= start + edges@.take(i as int));
        }
        assert(edges@.take(edges.len() as int) =~= edges@);
        proof {
            lemma_first_past(edges@, max_timestamp);
        }
        assert(first_past(edges@, max_timestamp) is None);
        if !has_next_page {
            return PagingAction::Finished;
        }
        PagingAction::FetchNext(edges[edges.len() - 1].node.height)
    }
}

/// The blocks of the collected edges, timestamps turned from seconds into
/// milliseconds.
pub fn edges_to_nodes(edges: &Vec<Edge>) -> (nodes: Vec<Node>)
    requires
        forall|i: int|
            0 <= i < edges.len() ==> i64::MIN <= (#[trigger] edges[i]).node.timestamp * 1000
                <= i64::MAX,
    ensures
        nodes.len() == edges.len(),
        forall|i: int|
            0 <= i < edges.len() ==> (#[trigger] nodes[i]).height == edges[i].node.height
                && nodes[i].timestamp == edges[i].node.timestamp * 1000,
{
    let mut nodes: Vec<Node> = Vec::new();
    let mut i: usize = 0;
    while i < edges.len()
        invariant
            i <= edges.len(),
            nodes.len() == i,
            forall|j: int|
                0 <= j < edges.len() ==> i64::MIN <= (#[trigger] edges[j]).node.timestamp * 1000
                    <= i64::MAX,
            forall|j: int|
                0 <= j < i ==> (#[trigger] nodes[j]).height == edges[j].node.height
                    && nodes[j].timestamp == edges[j].node.timestamp * 1000,
        decreases edges.len() - i,
    {
        let e = edges[i];
        nodes.push(Node { height: e.node.height, timestamp: e.node.timestamp * 1000 });
        i = i + 1;
    }
    nodes
}

} // verus!
