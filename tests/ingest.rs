use pg_vector_embed::config::{EmbedRequest, EmbedResponse, VectorDbConfig};
use pg_vector_embed::ingest::{parse_dimension, settle_fetch, step, Event, FetchError, Phase, Stage};
use pg_vector_embed::store::{
    create_table_statement, insert_statement, keep_first, query_statement, render_vector,
    nearest_rows, row_values, sort_by_distance, Neighbor,
};
use pg_vector_embed::text::parse_i32;

fn strings(v: &[&str]) -> Vec<String> {
    v.iter().map(|s| s.to_string()).collect()
}

fn vector(n: usize, x: &str) -> Vec<String> {
    (0..n).map(|_| x.to_string()).collect()
}

#[test]
fn parse_dimension_reads_number() {
    assert_eq!(parse_dimension("768"), 768);
    assert_eq!(parse_dimension("+12"), 12);
    assert_eq!(parse_dimension("-5"), -5);
    assert_eq!(parse_dimension("2147483647"), 2147483647);
    assert_eq!(parse_dimension("-2147483648"), -2147483648);
}

#[test]
fn parse_dimension_non_numeric_is_zero() {
    assert_eq!(parse_dimension("abc"), 0);
    assert_eq!(parse_dimension(""), 0);
    assert_eq!(parse_dimension("-"), 0);
    assert_eq!(parse_dimension("+"), 0);
    assert_eq!(parse_dimension(" 7"), 0);
    assert_eq!(parse_dimension("7a"), 0);
    assert_eq!(parse_dimension("2147483648"), 0);
    assert_eq!(parse_dimension("-2147483649"), 0);
    assert_eq!(parse_dimension("99999999999999999999"), 0);
}

#[test]
fn parse_i32_agrees_with_std() {
    for s in ["0", "00012", "-0", "+7", "12x", "", "-", "4294967296", "-2147483648", "٣"] {
        assert_eq!(parse_i32(s), s.parse::<i32>().ok(), "{}", s);
    }
}

#[test]
fn successful_fetch_keeps_one_vector_per_input() {
    let req = EmbedRequest::NewEmbedRequest("nomic-embed-text", vec!["dog barks", "cat purrs"]);
    let resp = EmbedResponse::NewEmbedResponse(
        "nomic-embed-text".to_string(),
        vec![vector(768, "0.5"), vector(768, "-0.25")],
    );
    let out = settle_fetch(Ok(resp));
    assert_eq!(out.model, "nomic-embed-text");
    assert_eq!(out.embeddings.len(), 2);
    assert_eq!(out.embeddings[0].len(), 768);
    assert_eq!(out.embeddings[1][0], "-0.25");
}

#[test]
fn failed_fetch_gives_empty_sentinel() {
    let req = EmbedRequest::NewEmbedRequest("m", vec!["a", "b"]);
    for err in [FetchError::Unreachable, FetchError::Status(500), FetchError::Malformed] {
        let out = settle_fetch(Err(err));
        assert_eq!(out.model, "");
        assert!(out.embeddings.is_empty());
        assert_eq!(row_values(&req, &out.embeddings).len(), 0);
    }
}

#[test]
fn fetch_with_fewer_vectors_passes_through() {
    let req = EmbedRequest::NewEmbedRequest("m", vec!["a", "b"]);
    let resp = EmbedResponse::NewEmbedResponse("m".to_string(), vec![vector(3, "1")]);
    let out = settle_fetch(Ok(resp));
    assert_eq!(out.model, "m");
    assert_eq!(out.embeddings, vec![vector(3, "1")]);
    let rows = row_values(&req, &out.embeddings);
    assert_eq!(rows.len(), 1);
    assert_eq!(rows[0].content, "a");
    assert_eq!(rows[0].vector, "[1,1,1]");
}

#[test]
fn empty_inputs_write_no_rows() {
    let req = EmbedRequest::NewEmbedRequest("m", vec![]);
    let resp = EmbedResponse::NewEmbedResponse("m".to_string(), vec![]);
    let out = settle_fetch(Ok(resp));
    assert_eq!(out.model, "m");
    assert!(out.embeddings.is_empty());
    assert!(row_values(&req, &out.embeddings).is_empty());
}

#[test]
fn two_inputs_give_two_rows() {
    let req = EmbedRequest::NewEmbedRequest("nomic-embed-text", vec!["dog barks", "cat purrs"]);
    let emb = vec![strings(&["0.1", "0.2"]), strings(&["1", "-3.5"])];
    let rows = row_values(&req, &emb);
    assert_eq!(rows.len(), 2);
    assert_eq!(rows[0].content, "dog barks");
    assert_eq!(rows[0].vector, "[0.1,0.2]");
    assert_eq!(rows[1].content, "cat purrs");
    assert_eq!(rows[1].vector, "[1,-3.5]");
}

#[test]
fn fewer_embeddings_than_inputs_write_the_prefix() {
    let req = EmbedRequest::NewEmbedRequest("m", vec!["a", "b", "c"]);
    let emb = vec![strings(&["1"]), strings(&["2"])];
    let rows = row_values(&req, &emb);
    assert_eq!(rows.len(), 2);
    assert_eq!(rows[1].content, "b");
    assert_eq!(rows[1].vector, "[2]");
}

#[test]
fn malformed_vector_still_gets_its_own_row() {
    let req = EmbedRequest::NewEmbedRequest("m", vec!["a", "b", "c"]);
    let emb = vec![strings(&["1", "2"]), strings(&["9"]), strings(&["3", "4"])];
    let rows = row_values(&req, &emb);
    assert_eq!(rows.len(), 3);
    assert_eq!(rows[1].vector, "[9]");
    assert_eq!(rows[2].vector, "[3,4]");
}

#[test]
fn render_vector_formats() {
    assert_eq!(render_vector(&vec![]), "[]");
    assert_eq!(render_vector(&strings(&["7"])), "[7]");
    assert_eq!(render_vector(&strings(&["1", "2", "3"])), "[1,2,3]");
}

#[test]
fn create_table_statement_text() {
    assert_eq!(
        create_table_statement("t1", 768),
        "CREATE TABLE IF NOT EXISTS t1 (id bigserial PRIMARY KEY, content text, embedding vector(768))"
    );
    assert_eq!(
        create_table_statement("t", 0),
        "CREATE TABLE IF NOT EXISTS t (id bigserial PRIMARY KEY, content text, embedding vector(0))"
    );
    assert_eq!(
        create_table_statement("t", -3),
        "CREATE TABLE IF NOT EXISTS t (id bigserial PRIMARY KEY, content text, embedding vector(-3))"
    );
}

#[test]
fn create_table_statement_is_the_same_twice() {
    assert_eq!(create_table_statement("t1", 768), create_table_statement("t1", 768));
}

#[test]
fn insert_and_query_statement_text() {
    assert_eq!(
        insert_statement("t1"),
        "INSERT INTO t1 (content, embedding) VALUES ($1, $2::text::vector)"
    );
    assert_eq!(
        query_statement("t1"),
        "SELECT content, round((embedding <-> $1::text::vector) * 1000000)::bigint FROM t1 ORDER BY embedding <-> $1::text::vector LIMIT $2"
    );
}

fn neighbors(v: &[(&str, i64)]) -> Vec<Neighbor> {
    v.iter().map(|(c, d)| Neighbor { content: c.to_string(), distance: *d }).collect()
}

fn contents(v: &[Neighbor]) -> Vec<String> {
    v.iter().map(|n| n.content.clone()).collect()
}

#[test]
fn keep_first_caps_at_limit() {
    let rows = [("dog barks", 10), ("cat purrs", 20), ("x", 30)];
    assert_eq!(contents(&keep_first(neighbors(&rows), 1)), strings(&["dog barks"]));
    assert_eq!(contents(&keep_first(neighbors(&rows), 5)), strings(&["dog barks", "cat purrs", "x"]));
    assert!(keep_first(neighbors(&rows), 0).is_empty());
    assert!(keep_first(neighbors(&rows), -2).is_empty());
}

#[test]
fn sort_by_distance_orders_nearest_first() {
    let sorted = sort_by_distance(neighbors(&[("c", 30), ("a", -5), ("d", 30), ("b", 7)]));
    let d: Vec<i64> = sorted.iter().map(|n| n.distance).collect();
    assert_eq!(d, vec![-5, 7, 30, 30]);
    assert_eq!(contents(&sorted[..2]), strings(&["a", "b"]));
    let mut rest = contents(&sorted[2..]);
    rest.sort();
    assert_eq!(rest, strings(&["c", "d"]));
    assert!(sort_by_distance(vec![]).is_empty());
}

#[test]
fn nearest_rows_keeps_the_nearest() {
    let rows = [("far", 900), ("dog barks", 0), ("mid", 40), ("near", 3), ("mid2", 40)];
    let r = nearest_rows(neighbors(&rows), 1);
    assert_eq!(contents(&r), strings(&["dog barks"]));
    assert_eq!(r[0].distance, 0);
    let r = nearest_rows(neighbors(&rows), 3);
    let d: Vec<i64> = r.iter().map(|n| n.distance).collect();
    assert_eq!(d, vec![0, 3, 40]);
    assert_eq!(contents(&r[..2]), strings(&["dog barks", "near"]));
    assert_eq!(nearest_rows(neighbors(&rows), 10).len(), 5);
    assert!(nearest_rows(neighbors(&rows), 0).is_empty());
    assert!(nearest_rows(neighbors(&rows), -1).is_empty());
    assert!(nearest_rows(vec![], 4).is_empty());
}

#[test]
fn run_with_bad_dimension_reaches_done() {
    assert_eq!(parse_dimension("abc"), 0);
    let mut s = Stage::Built;
    for e in [Event::Begin, Event::FetchReturned, Event::PersistStarted, Event::UnitFinished] {
        s = step(s, e);
    }
    assert!(s == Stage::Done);
    assert!(step(s, Event::UnitFailed) == Stage::Done);
}

#[test]
fn run_failures() {
    assert!(step(Stage::Fetching, Event::FetchAborted) == Stage::Failed(Phase::Fetching));
    assert!(step(Stage::Persisting, Event::UnitFailed) == Stage::Failed(Phase::Persisting));
    let f = Stage::Failed(Phase::Persisting);
    assert!(step(f, Event::Begin) == f);
    assert!(step(Stage::Built, Event::UnitFinished) == Stage::Built);
}

#[test]
fn request_builders() {
    let mut r = EmbedRequest::EmptyEmbedRequest();
    assert_eq!(r.get_model(), "");
    assert!(r.get_input().is_empty());
    r.set_model("nomic-embed-text".to_string());
    r.add_input("dog barks");
    r.add_input("cat purrs");
    assert_eq!(r.get_model(), "nomic-embed-text");
    assert_eq!(r.get_input(), strings(&["dog barks", "cat purrs"]));
    assert!(r.metadata.is_none());
    let shared = EmbedRequest::NewArcEmbedRequest(
        &"m".to_string(),
        &strings(&["x"]),
        &"meta".to_string(),
    );
    assert_eq!(shared.model, "m");
    assert_eq!(shared.input, strings(&["x"]));
    assert_eq!(shared.metadata.as_deref(), Some("meta"));
}

#[test]
fn response_builders() {
    let mut r = EmbedResponse::EmptyEmbedResponse();
    assert_eq!(r.get_model(), "");
    r.set_model("m".to_string());
    r.add_embedding(strings(&["1", "2"]));
    assert_eq!(r.get_model(), "m");
    assert_eq!(r.get_embeddings(), vec![strings(&["1", "2"])]);
}

#[test]
fn db_config_text() {
    let c = VectorDbConfig::NewVectorDbConfig("10.0.0.213", 5555, "rupesh", "vectordb");
    assert_eq!(c.timeout, 5);
    assert_eq!(c.to_string(), "host=10.0.0.213 port=5555 user=rupesh dbname=vectordb");
    let d = c.clone();
    assert_eq!(d.to_string(), c.to_string());
    assert_eq!(d.timeout, 5);
    let z = VectorDbConfig::NewVectorDbConfig("h", 0, "u", "d");
    assert_eq!(z.to_string(), "host=h port=0 user=u dbname=d");
    let m = VectorDbConfig::NewVectorDbConfig("h", 65535, "u", "d");
    assert_eq!(m.to_string(), "host=h port=65535 user=u dbname=d");
}
