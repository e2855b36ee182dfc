use rsdb::translate::{placeholder_text, render_tokens, translate_placeholders, translate_tokens, SqlToken};

fn text(s: &str) -> SqlToken {
    SqlToken::Text(s.to_owned())
}

fn texts(toks: &[SqlToken]) -> Vec<String> {
    toks.iter()
        .map(|t| match t {
            SqlToken::Marker => "?".to_owned(),
            SqlToken::Text(s) => s.clone(),
        })
        .collect()
}

#[test]
fn categories_query_gets_first_parameter() {
    let r = translate_placeholders("SELECT * FROM categories where categoryname like ?").unwrap();
    assert_eq!(r, "SELECT * FROM categories where categoryname like $1");
}

#[test]
fn count_query_gets_first_parameter() {
    let r = translate_placeholders("SELECT count(*) FROM customers where firstname like ?").unwrap();
    assert_eq!(r, "SELECT count(*) FROM customers where firstname like $1");
}

#[test]
fn two_markers_numbered_in_order() {
    let r = translate_placeholders("SELECT * FROM t where a = ? and b = ?").unwrap();
    assert_eq!(r, "SELECT * FROM t where a = $1 and b = $2");
}

#[test]
fn markers_numbered_regardless_of_neighbours() {
    let r = translate_placeholders("INSERT INTO t VALUES (?,?, ?)").unwrap();
    assert_eq!(r, "INSERT INTO t VALUES ($1,$2, $3)");
}

#[test]
fn text_without_markers_is_unchanged() {
    let sql = "SELECT a, b FROM t WHERE c = 'x' AND d > 3";
    assert_eq!(translate_placeholders(sql).unwrap(), sql);
}

#[test]
fn empty_text_is_unchanged() {
    assert_eq!(translate_placeholders("").unwrap(), "");
}

#[test]
fn markers_inside_literals_are_not_counted() {
    let r = translate_placeholders("SELECT '?', \"a?\" FROM t where x = ?").unwrap();
    assert_eq!(r, "SELECT '?', \"a?\" FROM t where x = $1");
}

#[test]
fn json_operators_are_not_markers() {
    let r = translate_placeholders("SELECT d ?| k FROM t where x = ?").unwrap();
    assert_eq!(r, "SELECT d ?| k FROM t where x = $1");
}

#[test]
fn unterminated_literal_is_refused() {
    assert!(translate_placeholders("SELECT 'abc").is_err());
}

#[test]
fn ten_markers_reach_two_digits() {
    let r = translate_placeholders("?,?,?,?,?,?,?,?,?,?").unwrap();
    assert_eq!(r, "$1,$2,$3,$4,$5,$6,$7,$8,$9,$10");
}

#[test]
fn placeholder_texts() {
    assert_eq!(placeholder_text(1), "$1");
    assert_eq!(placeholder_text(0), "$0");
    assert_eq!(placeholder_text(10), "$10");
    assert_eq!(placeholder_text(4096), "$4096");
}

#[test]
fn token_translation_numbers_markers() {
    let toks = vec![text("a"), SqlToken::Marker, text(" = "), SqlToken::Marker, text(";")];
    let out = translate_tokens(&toks);
    assert_eq!(texts(&out), vec!["a", "$1", " = ", "$2", ";"]);
    assert_eq!(render_tokens(&out), "a$1 = $2;");
}

#[test]
fn token_translation_without_markers_keeps_tokens() {
    let toks = vec![text("SELECT"), text(" "), text("1")];
    let out = translate_tokens(&toks);
    assert_eq!(texts(&out), texts(&toks));
    assert_eq!(render_tokens(&out), render_tokens(&toks));
}

#[test]
fn rendering_writes_markers_back() {
    let toks = vec![text("x"), SqlToken::Marker];
    assert_eq!(render_tokens(&toks), "x?");
    assert_eq!(render_tokens(&Vec::new()), "");
}

#[test]
fn concatenation_after_marker_is_an_operator() {
    let r = translate_placeholders("SELECT ?||'x'").unwrap();
    assert_eq!(r, "SELECT ?||'x'");
}

#[test]
fn doubled_quotes_are_kept_with_markers() {
    let r = translate_placeholders("SELECT * FROM t WHERE name = 'O''Brien' AND id = ?").unwrap();
    assert_eq!(r, "SELECT * FROM t WHERE name = 'O''Brien' AND id = $1");
}

#[test]
fn doubled_quotes_are_kept_without_markers() {
    let sql = "SELECT * FROM t WHERE a = 'a'' OR ''1''=''1'";
    assert_eq!(translate_placeholders(sql).unwrap(), sql);
}

#[test]
fn quoted_identifiers_are_kept() {
    let r = translate_placeholders("SELECT \"a\"\"b\" FROM t WHERE c = ?").unwrap();
    assert_eq!(r, "SELECT \"a\"\"b\" FROM t WHERE c = $1");
}

#[test]
fn escaped_literals_without_markers_are_kept() {
    let sql = "SELECT E'x\\'y' FROM t";
    assert_eq!(translate_placeholders(sql).unwrap(), sql);
}
