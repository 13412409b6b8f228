//! The vector store: a table of (id, text, vector) rows in PostgreSQL with the
//! vector extension, created when absent, filled row by row, and searched by
//! distance.

use crate::config::EmbedRequest;
use crate::text::{int_text, push_int};
use vstd::multiset::Multiset;
use vstd::prelude::*;

verus! {

/// postgres::Client, a blocking connection; carried through opaque. Its calls
/// drive a runtime of their own and panic inside an async runtime, so the
/// functions here that take one are for plain threads.
#[verifier::external_type_specification]
#[verifier::external_body]
pub struct ExClient(postgres::Client);

/// postgres::Error, what a failed database call reports; carried through opaque.
#[verifier::external_type_specification]
#[verifier::external_body]
pub struct ExPgError(postgres::Error);

/// A failure reported by the database, with the operation it came from.
pub enum StoreError {
    CreateTable(postgres::Error),
    InsertRow(usize, postgres::Error),
    Query(postgres::Error),
}

/// The text and vector of one row to write.
pub struct RowValues {
    pub content: String,
    pub vector: String,
}

/// Statement that creates the table unless a table of that name exists.
pub open spec fn create_table_sql(table: Seq<char>, dimension: int) -> Seq<char> {
    "CREATE TABLE IF NOT EXISTS "@ + table
        + " (id bigserial PRIMARY KEY, content text, embedding vector("@ + int_text(dimension)
        + "))"@
}

/// Statement that writes one row; `$1` is the text, `$2` the vector literal.
pub open spec fn insert_sql(table: Seq<char>) -> Seq<char> {
    "INSERT INTO "@ + table + " (content, embedding) VALUES ($1, $2::text::vector)"@
}

/// Statement that reads the texts nearest to the vector `$1`, nearest first,
/// at most `$2` of them, each with its distance in millionths, rounded.
pub open spec fn query_sql(table: Seq<char>) -> Seq<char> {
    "SELECT content, round((embedding <-> $1::text::vector) * 1000000)::bigint FROM "@ + table
        + " ORDER BY embedding <-> $1::text::vector LIMIT $2"@
}

/// Coordinates joined by commas.
pub open spec fn joined(cs: Seq<Seq<char>>) -> Seq<char>
    decreases cs.len(),
{
    if cs.len() == 0 {
        Seq::empty()
    } else if cs.len() == 1 {
        cs[0]
    } else {
        joined(cs.drop_last()) + ","@ + cs.last()
    }
}

/// The text form of a vector that the store reads: `[x1,x2,...]`.
pub open spec fn vector_literal(cs: Seq<Seq<char>>) -> Seq<char> {
    "["@ + joined(cs) + "]"@
}

/// Number of rows written for a request and its embeddings: the overlapping
/// prefix of the two lists.
pub open spec fn row_count(inputs: int, embeddings: int) -> int {
    if inputs <= embeddings { inputs } else { embeddings }
}

/// A model of a store as a map from table names to vector widths: the map
/// after a create-if-absent of `table` with `dimension`. An existing table is
/// kept as it is.
pub open spec fn create_if_absent(tables: Map<Seq<char>, int>, table: Seq<char>, dimension: int) -> Map<
    Seq<char>,
    int,
> {
    if tables.contains_key(table) {
        tables
    } else {
        tables.insert(table, dimension)
    }
}

/// In that model, creating a table twice with the same name and width leaves
/// the store as creating it once does; and the statement that
/// [`create_table_statement`] makes is such a create-if-absent. This is a fact
/// of the model and of the statement's text, not of what a live database does.
pub proof fn lemma_create_table_idempotent(tables: Map<Seq<char>, int>, table: Seq<char>, dimension: int)
    ensures
        create_if_absent(create_if_absent(tables, table, dimension), table, dimension)
            == create_if_absent(tables, table, dimension),
        create_table_sql(table, dimension).subrange(0, 27) == "CREATE TABLE IF NOT EXISTS "@,
{
    reveal_strlit("CREATE TABLE IF NOT EXISTS ");
    assert(create_table_sql(table, dimension).subrange(0, 27) =~= "CREATE TABLE IF NOT EXISTS "@);
}

/// Relies on postgres::Client::execute: sends one statement without
/// parameters and gives back the number of rows changed or the error.
#[verifier::external_body]
fn pg_execute(client: &mut postgres::Client, sql: &str) -> (r: Result<u64, postgres::Error>) {
    client.execute(sql, &[])
}

/// Relies on postgres::Client::execute: sends one statement with two text
/// parameters and gives back the number of rows changed or the error.
#[verifier::external_body]
fn pg_execute_pair(client: &mut postgres::Client, sql: &str, first: &str, second: &str) -> (r: Result<
    u64,
    postgres::Error,
>) {
    client.execute(sql, &[&first, &second])
}

/// Relies on postgres::Client::query and postgres::Row::try_get: runs one
/// query with a text and an integer parameter and reads each row's first
/// column as text and second as an integer, in the order the database
/// returned the rows.
#[verifier::external_body]
fn pg_query_neighbors(client: &mut postgres::Client, sql: &str, text: &str, number: i64) -> (r:
    Result<Vec<Neighbor>, postgres::Error>) {
    client.query(sql, &[&text, &number]).and_then(
        |rows| rows.iter().map(|row| Ok(Neighbor { content: row.try_get(0)?, distance: row.try_get(1)? })).collect(),
    )
}

/// The statement that [`ensure_table`] sends.
pub fn create_table_statement(table: &str, dimension: i32) -> (r: String)
    ensures
        r@ == create_table_sql(table@, dimension as int),
{
    proof {
        reveal_strlit("CREATE TABLE IF NOT EXISTS ");
        reveal_strlit(" (id bigserial PRIMARY KEY, content text, embedding vector(");
        reveal_strlit("))");
    }
    let mut r = String::from_str("CREATE TABLE IF NOT EXISTS ");
    r.append(table);
    r.append(" (id bigserial PRIMARY KEY, content text, embedding vector(");
    push_int(&mut r, dimension as i64);
    r.append("))");
    r
}

/// The statement that [`insert_rows`] sends for each row.
pub fn insert_statement(table: &str) -> (r: String)
    ensures
        r@ == insert_sql(table@),
{
    proof {
        reveal_strlit("INSERT INTO ");
        reveal_strlit(" (content, embedding) VALUES ($1, $2::text::vector)");
    }
    let mut r = String::from_str("INSERT INTO ");
    r.append(table);
    r.append(" (content, embedding) VALUES ($1, $2::text::vector)");
    r
}

/// The statement that [`query_similar`] sends.
pub fn query_statement(table: &str) -> (r: String)
    ensures
        r@ == query_sql(table@),
{
    proof {
        reveal_strlit("SELECT content, round((embedding <-> $1::text::vector) * 1000000)::bigint FROM ");
        reveal_strlit(" ORDER BY embedding <-> $1::text::vector LIMIT $2");
    }
    let mut r = String::from_str(
        "SELECT content, round((embedding <-> $1::text::vector) * 1000000)::bigint FROM ",
    );
    r.append(table);
    r.append(" ORDER BY embedding <-> $1::text::vector LIMIT $2");
    r
}

/// Writes a vector in the text form the store reads.
pub fn render_vector(cs: &Vec<String>) -> (r: String)
    ensures
        r@ == vector_literal(cs.deep_view()),
{
    proof {
        reveal_strlit("[");
        reveal_strlit("]");
        reveal_strlit(",");
    }
    let mut body = String::new();
    let mut i: usize = 0;
    while i < cs.len()
        invariant
            i <= cs.len(),
            body@ == joined(cs.deep_view().subrange(0, i as int)),
        decreases cs.len() - i,
    {
        if i > 0 {
            body.append(",");
        }
        body.append(cs[i].as_str());
        proof {
            let s = cs.deep_view().subrange(0, i as int + 1);
            assert(s.drop_last() =~= cs.deep_view().subrange(0, i as int));
            assert(s.last() == cs@[i as int]@);
            assert(body@ =~= joined(s));
        }
        i = i + 1;
    }
    assert(cs.deep_view().subrange(0, cs.len() as int) =~= cs.deep_view());
    let mut r = String::from_str("[");
    r.append(body.as_str());
    r.append("]");
    r
}

/// The rows to write: one per input that has an embedding, in input order.
pub fn row_values(request: &EmbedRequest, embeddings: &Vec<Vec<String>>) -> (r: Vec<RowValues>)
    ensures
        r@.len() == row_count(request.input@.len() as int, embeddings@.len() as int),
        forall|i: int|
            0 <= i < r@.len() ==> (#[trigger] r@[i]).content@ == request.input@[i]@
                && r@[i].vector@ == vector_literal(embeddings@[i].deep_view()),
{
    let n: usize = if request.input.len() <= embeddings.len() {
        request.input.len()
    } else {
        embeddings.len()
    };
    let mut r: Vec<RowValues> = Vec::new();
    let mut i: usize = 0;
    while i < n
        invariant
            i <= n,
            n <= request.input@.len(),
            n <= embeddings@.len(),
            r@.len() == i,
            forall|j: int|
                0 <= j < i ==> (#[trigger] r@[j]).content@ == request.input@[j]@
                    && r@[j].vector@ == vector_literal(embeddings@[j].deep_view()),
        decreases n - i,
    {
        let content = request.input[i].clone();
        let vector = render_vector(&embeddings[i]);
        r.push(RowValues { content, vector });
        i = i + 1;
    }
    r
}

/// Creates `table` with a vector column of width `dimension` unless a table of
/// that name exists; an existing table is kept whatever its width.
pub fn ensure_table(client: &mut postgres::Client, table: &str, dimension: i32) -> (r: Result<
    (),
    StoreError,
>)
    ensures
        r matches Err(e) ==> e is CreateTable,
{
    let sql = create_table_statement(table, dimension);
    match pg_execute(client, sql.as_str()) {
        Ok(_) => Ok(()),
        Err(e) => Err(StoreError::CreateTable(e)),
    }
}

/// Writes one row per input that has an embedding, each on its own: a row
/// that fails does not stop the others. Gives back one outcome per row, in
/// input order.
pub fn insert_rows(client: &mut postgres::Client, table: &str, request: &EmbedRequest, embeddings: &Vec<
    Vec<String>,
>) -> (r: Vec<Result<(), StoreError>>)
    ensures
        r@.len() == row_count(request.input@.len() as int, embeddings@.len() as int),
        forall|i: int|
            0 <= i < r@.len() ==> match #[trigger] r@[i] {
                Ok(_) => true,
                Err(e) => e matches StoreError::InsertRow(k, _) && k == i,
            },
{
    let sql = insert_statement(table);
    let rows = row_values(request, embeddings);
    let mut outcomes: Vec<Result<(), StoreError>> = Vec::new();
    let mut i: usize = 0;
    while i < rows.len()
        invariant
            i <= rows@.len(),
            outcomes@.len() == i,
            forall|j: int|
                0 <= j < i ==> match #[trigger] outcomes@[j] {
                    Ok(_) => true,
                    Err(e) => e matches StoreError::InsertRow(k, _) && k == j,
                },
        decreases rows.len() - i,
    {
        let outcome = match pg_execute_pair(client, sql.as_str(), rows[i].content.as_str(), rows[i].vector.as_str()) {
            Ok(_) => Ok(()),
            Err(e) => Err(StoreError::InsertRow(i, e)),
        };
        outcomes.push(outcome);
        i = i + 1;
    }
    outcomes
}

/// A stored text and its distance to the query, in millionths.
pub struct Neighbor {
    pub content: String,
    pub distance: i64,
}

pub open spec fn sorted_by_distance(s: Seq<Neighbor>) -> bool {
    forall|i: int, j: int| 0 <= i < j < s.len() ==> #[trigger] s[i].distance <= #[trigger] s[j].distance
}

/// The rows ordered by distance, nearest first.
pub fn sort_by_distance(rows: Vec<Neighbor>) -> (r: Vec<Neighbor>)
    ensures
        sorted_by_distance(r@),
        r@.to_multiset() == rows@.to_multiset(),
{
    broadcast use vstd::seq_lib::group_to_multiset_ensures;

    let mut rest = rows;
    let mut out: Vec<Neighbor> = Vec::new();
    while rest.len() > 0
        invariant
            sorted_by_distance(out@),
            out@.to_multiset().add(rest@.to_multiset()) == rows@.to_multiset(),
        decreases rest.len(),
    {
        let ghost before = rest@;
        let x = rest.pop().unwrap();
        proof {
            assert(before =~= rest@.push(x));
        }
        let mut pos: usize = 0;
        while pos < out.len() && out[pos].distance <= x.distance
            invariant
                pos <= out@.len(),
                forall|j: int| 0 <= j < pos ==> #[trigger] out@[j].distance <= x.distance,
            decreases out.len() - pos,
        {
            pos = pos + 1;
        }
        let ghost prev = out@;
        out.insert(pos, x);
        proof {
            assert(out@ == prev.insert(pos as int, x));
            vstd::seq_lib::to_multiset_insert(prev, pos as int, x);
            vstd::seq_lib::to_multiset_build(rest@, x);
            assert(out@.to_multiset() == prev.to_multiset().insert(x));
            assert(before.to_multiset() == rest@.to_multiset().insert(x));
            assert(out@.to_multiset().add(rest@.to_multiset()) =~= prev.to_multiset().add(
                before.to_multiset(),
            ));
            assert forall|i: int, j: int| 0 <= i < j < out@.len() implies #[trigger] out@[i].distance
                <= #[trigger] out@[j].distance by {
                if j < pos {
                    assert(out@[i] == prev[i] && out@[j] == prev[j]);
                } else if j == pos {
                    assert(out@[i] == prev[i]);
                } else if i == pos {
                    assert(out@[j] == prev[j - 1]);
                    if pos < prev.len() {
                        assert(prev[pos as int].distance > x.distance);
                        assert(prev[pos as int].distance <= prev[j - 1].distance || pos as int == j - 1);
                    }
                } else if i < pos {
                    assert(out@[i] == prev[i] && out@[j] == prev[j - 1]);
                } else {
                    assert(out@[i] == prev[i - 1] && out@[j] == prev[j - 1]);
                }
            }
        }
    }
    proof {
        assert(rest@.to_multiset() =~= Multiset::empty());
        assert(out@.to_multiset().add(Multiset::empty()) =~= out@.to_multiset());
    }
    out
}

/// The first `limit` of `rows`, or all of them when there are fewer.
pub fn keep_first(rows: Vec<Neighbor>, limit: i64) -> (r: Vec<Neighbor>)
    ensures
        r@.len() == (if limit <= 0 { 0 } else { row_count(rows@.len() as int, limit as int) }),
        r@ == rows@.subrange(0, r@.len() as int),
{
    let mut rows = rows;
    if limit <= 0 {
        rows.truncate(0);
    } else if (rows.len() as u64) > (limit as u64) {
        rows.truncate(limit as usize);
    }
    rows
}

/// The `limit` rows of `rows` nearest first: sorted by distance, taken from
/// `rows`, and no row left out is nearer than the last one kept.
pub fn nearest_rows(rows: Vec<Neighbor>, limit: i64) -> (r: Vec<Neighbor>)
    ensures
        r@.len() == (if limit <= 0 { 0 } else { row_count(rows@.len() as int, limit as int) }),
        sorted_by_distance(r@),
        r@.to_multiset().subset_of(rows@.to_multiset()),
        r@.len() > 0 ==> forall|x: Neighbor|
            #[trigger] rows@.to_multiset().sub(r@.to_multiset()).contains(x) ==> x.distance
                >= r@.last().distance,
{
    broadcast use vstd::multiset::group_multiset_axioms;

    let ghost all = rows@;
    let sorted = sort_by_distance(rows);
    let ghost s = sorted@;
    proof {
        vstd::seq_lib::to_multiset_len(all);
        vstd::seq_lib::to_multiset_len(s);
    }
    let kept = keep_first(sorted, limit);
    proof {
        let n = kept@.len() as int;
        let tail = s.subrange(n, s.len() as int);
        assert(s =~= kept@ + tail);
        vstd::seq_lib::lemma_multiset_commutative(kept@, tail);
        assert(all.to_multiset() == kept@.to_multiset().add(tail.to_multiset()));
        assert(all.to_multiset().sub(kept@.to_multiset()) =~= tail.to_multiset());
        assert forall|a: int, b: int| 0 <= a < b < kept@.len() implies #[trigger] kept@[a].distance
            <= #[trigger] kept@[b].distance by {
            assert(kept@[a] == s[a] && kept@[b] == s[b]);
        }
        if n > 0 {
            assert forall|x: Neighbor| #[trigger] all.to_multiset().sub(kept@.to_multiset()).contains(
                x,
            ) implies x.distance >= kept@.last().distance by {
                vstd::seq_lib::to_multiset_contains(tail, x);
                let k = choose|k: int| 0 <= k < tail.len() && tail[k] == x;
                assert(tail[k] == s[n + k]);
                assert(kept@.last() == s[n - 1]);
            }
        }
    }
    kept
}

/// The texts of the rows nearest to `query_vector`, nearest first, at most
/// `limit` of them: [`nearest_rows`] of what the store answers to
/// [`query_statement`] with [`render_vector`] of the query.
pub fn query_similar(client: &mut postgres::Client, table: &str, query_vector: &Vec<String>, limit: i64) -> (r: Result<
    Vec<Neighbor>,
    StoreError,
>)
    ensures
        limit <= 0 ==> (r matches Ok(v) && v@.len() == 0),
        r matches Ok(rows) ==> rows@.len() <= (if limit <= 0 { 0 } else { limit as int })
            && sorted_by_distance(rows@),
        r matches Err(e) ==> e is Query,
{
    if limit <= 0 {
        return Ok(Vec::new());
    }
    let sql = query_statement(table);
    let vector = render_vector(query_vector);
    match pg_query_neighbors(client, sql.as_str(), vector.as_str(), limit) {
        Ok(rows) => Ok(nearest_rows(rows, limit)),
        Err(e) => Err(StoreError::Query(e)),
    }
}

} // verus!
