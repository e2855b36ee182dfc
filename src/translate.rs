//! Placeholder translation: portable `?` markers become PostgreSQL's
//! positional parameters `$1`, `$2`, ... in left-to-right order.
use vstd::prelude::*;
use sqlparser::dialect::PostgreSqlDialect;
use sqlparser::tokenizer::{Token, Tokenizer};
use crate::model::Error;

verus! {

/// A token of SQL text as the translator sees it.
#[derive(Debug, Clone)]
pub enum SqlToken {
    /// A bare, unquoted placeholder marker `?`.
    Marker,
    /// Any other token, held as its SQL text.
    Text(String),
}

/// The mathematical value of a token.
pub enum TokenView {
    Marker,
    Text(Seq<char>),
}

impl View for SqlToken {
    type V = TokenView;

    open spec fn view(&self) -> TokenView {
        match self {
            SqlToken::Marker => TokenView::Marker,
            SqlToken::Text(s) => TokenView::Text(s@),
        }
    }
}

/// The values of a sequence of tokens.
pub open spec fn views(toks: Seq<SqlToken>) -> Seq<TokenView> {
    toks.map_values(|t: SqlToken| t@)
}

/// The SQL text of one token.
pub open spec fn token_text(t: TokenView) -> Seq<char> {
    match t {
        TokenView::Marker => seq!['?'],
        TokenView::Text(s) => s,
    }
}

/// The SQL text of a token sequence: the tokens' texts, concatenated.
pub open spec fn sql_text(toks: Seq<TokenView>) -> Seq<char>
    decreases toks.len(),
{
    if toks.len() == 0 {
        seq![]
    } else {
        sql_text(toks.drop_last()) + token_text(toks.last())
    }
}

/// The number of markers in a token sequence.
pub open spec fn marker_count(toks: Seq<TokenView>) -> nat
    decreases toks.len(),
{
    if toks.len() == 0 {
        0
    } else {
        marker_count(toks.drop_last()) + if toks.last() is Marker {
            1nat
        } else {
            0nat
        }
    }
}

/// The decimal digit for `d < 10`.
pub open spec fn digit_char(d: nat) -> char {
    if d == 0 {
        '0'
    } else if d == 1 {
        '1'
    } else if d == 2 {
        '2'
    } else if d == 3 {
        '3'
    } else if d == 4 {
        '4'
    } else if d == 5 {
        '5'
    } else if d == 6 {
        '6'
    } else if d == 7 {
        '7'
    } else if d == 8 {
        '8'
    } else {
        '9'
    }
}

/// The decimal notation of `n`, without leading zeros.
pub open spec fn decimal(n: nat) -> Seq<char>
    decreases n,
{
    if n < 10 {
        seq![digit_char(n)]
    } else {
        decimal(n / 10).push(digit_char(n % 10))
    }
}

/// PostgreSQL's positional parameter number `n`: `$n`.
pub open spec fn placeholder(n: nat) -> Seq<char> {
    seq!['$'] + decimal(n)
}

/// The number a marker at index `i` receives: one more than the markers before it.
pub open spec fn marker_number(toks: Seq<TokenView>, i: int) -> nat {
    marker_count(toks.take(i)) + 1
}

/// The translated token sequence: each marker becomes the text of its
/// positional parameter, every other token stays as it is.
pub open spec fn translated(toks: Seq<TokenView>) -> Seq<TokenView> {
    Seq::new(
        toks.len(),
        |i: int|
            if toks[i] is Marker {
                TokenView::Text(placeholder(marker_number(toks, i)))
            } else {
                toks[i]
            },
    )
}

/// What the PostgreSQL tokenizer makes of a SQL text: `None` where it fails.
pub uninterp spec fn sql_tokens(sql: Seq<char>) -> Option<Seq<TokenView>>;

/// Relies on sqlparser's `Tokenizer::tokenize` under `PostgreSqlDialect`, with
/// literals kept as written (`with_unescape(false)`): its
/// outcome depends on the text alone. A `?` that does not start one of
/// PostgreSQL's operators (`?|`, `?&`, `?-`, `?#`, ...) is its
/// `Token::Question`; every other token is kept as its `Display` text.
#[verifier::external_body]
fn tokenize_sql(sql: &str) -> (r: Result<Vec<SqlToken>, String>)
    ensures
        match r {
            Ok(toks) => sql_tokens(sql@) == Some(views(toks@)),
            Err(_) => sql_tokens(sql@) is None,
        },
{
    let dialect = PostgreSqlDialect {};
    match Tokenizer::new(&dialect, sql).with_unescape(false).tokenize() {
        Ok(tokens) => Ok(tokens.iter().map(|t| match t {
            Token::Question => SqlToken::Marker,
            other => SqlToken::Text(other.to_string()),
        }).collect()),
        Err(e) => Err(e.to_string()),
    }
}

/// The decimal digit `d` as text.
fn digit(d: usize) -> (t: &'static str)
    requires
        d < 10,
    ensures
        t@ == seq![digit_char(d as nat)],
{
    if d == 0 {
        proof {
            reveal_strlit("0");
        }
        "0"
    } else if d == 1 {
        proof {
            reveal_strlit("1");
        }
        "1"
    } else if d == 2 {
        proof {
            reveal_strlit("2");
        }
        "2"
    } else if d == 3 {
        proof {
            reveal_strlit("3");
        }
        "3"
    } else if d == 4 {
        proof {
            reveal_strlit("4");
        }
        "4"
    } else if d == 5 {
        proof {
            reveal_strlit("5");
        }
        "5"
    } else if d == 6 {
        proof {
            reveal_strlit("6");
        }
        "6"
    } else if d == 7 {
        proof {
            reveal_strlit("7");
        }
        "7"
    } else if d == 8 {
        proof {
            reveal_strlit("8");
        }
        "8"
    } else {
        proof {
            reveal_strlit("9");
        }
        "9"
    }
}

/// Appends the decimal notation of `n` to `s`.
fn push_decimal(s: &mut String, n: usize)
    ensures
        final(s)@ == old(s)@ + decimal(n as nat),
    decreases n,
{
    if n < 10 {
        s.append(digit(n));
    } else {
        push_decimal(s, n / 10);
        s.append(digit(n % 10));
        assert(final(s)@ =~= old(s)@ + decimal(n as nat));
    }
}

/// The text of PostgreSQL's positional parameter `n`.
pub fn placeholder_text(n: usize) -> (r: String)
    ensures
        r@ == placeholder(n as nat),
{
    let mut s = String::new();
    proof {
        reveal_strlit("$");
    }
    s.append("$");
    push_decimal(&mut s, n);
    assert(s@ =~= placeholder(n as nat));
    s
}

proof fn lemma_marker_count_bound(toks: Seq<TokenView>)
    ensures
        marker_count(toks) <= toks.len(),
    decreases toks.len(),
{
    if toks.len() > 0 {
        lemma_marker_count_bound(toks.drop_last());
    }
}

proof fn lemma_take_step(toks: Seq<TokenView>, i: int)
    requires
        0 <= i < toks.len(),
    ensures
        toks.take(i + 1).drop_last() == toks.take(i),
        toks.take(i + 1).last() == toks[i],
        marker_count(toks.take(i + 1)) == marker_count(toks.take(i)) + if toks[i] is Marker {
            1nat
        } else {
            0nat
        },
{
    assert(toks.take(i + 1).drop_last() =~= toks.take(i));
}

/// Replaces each marker by its positional parameter, numbered from 1 in
/// left-to-right order; every other token is kept.
pub fn translate_tokens(toks: &Vec<SqlToken>) -> (r: Vec<SqlToken>)
    ensures
        views(r@) == translated(views(toks@)),
{
    let ghost v = views(toks@);
    let mut out: Vec<SqlToken> = Vec::new();
    let mut count: usize = 0;
    let mut i: usize = 0;
    while i < toks.len()
        invariant
            v == views(toks@),
            i <= toks.len(),
            out@.len() == i,
            count == marker_count(v.take(i as int)),
            forall|j: int| 0 <= j < i ==> #[trigger] out@[j]@ == translated(v)[j],
        decreases toks.len() - i,
    {
        proof {
            lemma_take_step(v, i as int);
            lemma_marker_count_bound(v.take(i as int + 1));
        }
        match &toks[i] {
            SqlToken::Marker => {
                count = count + 1;
                out.push(SqlToken::Text(placeholder_text(count)));
            },
            SqlToken::Text(s) => {
                out.push(SqlToken::Text(s.clone()));
            },
        }
        i = i + 1;
    }
    assert(views(out@) =~= translated(v));
    out
}

/// Joins the tokens' SQL texts.
pub fn render_tokens(toks: &Vec<SqlToken>) -> (r: String)
    ensures
        r@ == sql_text(views(toks@)),
{
    let ghost v = views(toks@);
    let mut out = String::new();
    let mut i: usize = 0;
    while i < toks.len()
        invariant
            v == views(toks@),
            i <= toks.len(),
            out@ == sql_text(v.take(i as int)),
        decreases toks.len() - i,
    {
        proof {
            lemma_take_step(v, i as int);
        }
        match &toks[i] {
            SqlToken::Marker => {
                proof {
                    reveal_strlit("?");
                }
                out.append("?");
            },
            SqlToken::Text(s) => {
                out.append(s.as_str());
            },
        }
        assert(out@ =~= sql_text(v.take(i as int + 1)));
        i = i + 1;
    }
    assert(v.take(toks.len() as int) =~= v);
    out
}

proof fn lemma_prefix_count_monotone(toks: Seq<TokenView>, i: int, j: int)
    requires
        0 <= i <= j <= toks.len(),
    ensures
        marker_count(toks.take(i)) <= marker_count(toks.take(j)),
    decreases j - i,
{
    if i < j {
        lemma_take_step(toks, j - 1);
        lemma_prefix_count_monotone(toks, i, j - 1);
    }
}

proof fn lemma_no_marker_count(toks: Seq<TokenView>)
    ensures
        marker_count(toks) == 0 <==> forall|i: int| 0 <= i < toks.len() ==> !(#[trigger] toks[i] is Marker),
    decreases toks.len(),
{
    if toks.len() > 0 {
        let init = toks.drop_last();
        lemma_no_marker_count(init);
        if marker_count(toks) == 0 {
            assert forall|i: int| 0 <= i < toks.len() implies !(#[trigger] toks[i] is Marker) by {
                if i < toks.len() - 1 {
                    assert(toks[i] == init[i]);
                }
            }
        } else {
            if forall|i: int| 0 <= i < toks.len() ==> !(#[trigger] toks[i] is Marker) {
                assert forall|i: int| 0 <= i < init.len() implies !(#[trigger] init[i] is Marker) by {
                    assert(init[i] == toks[i]);
                }
                assert(!(toks[toks.len() - 1] is Marker));
            }
        }
    }
}

/// Some marker of `toks` receives the number `m`.
pub open spec fn numbered_marker(toks: Seq<TokenView>, m: nat) -> bool {
    exists|i: int| 0 <= i < toks.len() && toks[i] is Marker && #[trigger] marker_number(toks, i) == m
}

proof fn lemma_numbers_cover(toks: Seq<TokenView>, m: nat)
    requires
        1 <= m <= marker_count(toks),
    ensures
        exists|i: int| 0 <= i < toks.len() && toks[i] is Marker && #[trigger] marker_number(toks, i) == m,
    decreases toks.len(),
{
    let init = toks.drop_last();
    let n = toks.len() - 1;
    if m <= marker_count(init) {
        lemma_numbers_cover(init, m);
        let i = choose|i: int| 0 <= i < init.len() && init[i] is Marker && #[trigger] marker_number(init, i) == m;
        assert(init.take(i) =~= toks.take(i));
        assert(marker_number(toks, i) == m);
    } else {
        assert(toks.take(n) =~= init);
        assert(marker_number(toks, n) == m);
    }
}

/// Translation gives `K` markers the numbers `1 ..= K`, each exactly once and
/// increasing from left to right; each marker becomes the text of its
/// parameter, every other token is kept, and no marker is left.
pub proof fn lemma_placeholders_numbered(toks: Seq<TokenView>)
    ensures
        translated(toks).len() == toks.len(),
        marker_count(translated(toks)) == 0,
        forall|i: int|
            0 <= i < toks.len() && toks[i] is Marker ==> #[trigger] translated(toks)[i]
                == TokenView::Text(placeholder(marker_number(toks, i))),
        forall|i: int| 0 <= i < toks.len() && !(toks[i] is Marker) ==> #[trigger] translated(toks)[i] == toks[i],
        forall|i: int|
            0 <= i < toks.len() && toks[i] is Marker ==> 1 <= #[trigger] marker_number(toks, i) <= marker_count(toks),
        forall|i: int, j: int|
            0 <= i < j < toks.len() && toks[i] is Marker && toks[j] is Marker ==> #[trigger] marker_number(toks, i)
                < #[trigger] marker_number(toks, j),
        forall|m: nat| 1 <= m <= marker_count(toks) ==> #[trigger] numbered_marker(toks, m),
{
    let t = translated(toks);
    lemma_no_marker_count(t);
    assert forall|i: int|
        0 <= i < toks.len() && toks[i] is Marker implies 1 <= #[trigger] marker_number(toks, i) <= marker_count(toks) by {
        lemma_take_step(toks, i);
        lemma_prefix_count_monotone(toks, i + 1, toks.len() as int);
        assert(toks.take(toks.len() as int) =~= toks);
    }
    assert forall|i: int, j: int|
        0 <= i < j < toks.len() && toks[i] is Marker && toks[j] is Marker implies #[trigger] marker_number(toks, i)
            < #[trigger] marker_number(toks, j) by {
        lemma_take_step(toks, i);
        lemma_prefix_count_monotone(toks, i + 1, j);
    }
    assert forall|m: nat| 1 <= m <= marker_count(toks) implies #[trigger] numbered_marker(toks, m) by {
        lemma_numbers_cover(toks, m);
    }
}

/// Text without markers translates to itself.
pub proof fn lemma_no_markers_unchanged(toks: Seq<TokenView>)
    requires
        marker_count(toks) == 0,
    ensures
        translated(toks) == toks,
        sql_text(translated(toks)) == sql_text(toks),
{
    lemma_no_marker_count(toks);
    assert(translated(toks) =~= toks);
}

/// Portable SQL whose tokens hold no marker translates to itself, byte for
/// byte.
pub proof fn lemma_no_markers_text_unchanged(sql: Seq<char>)
    requires
        sql_tokens(sql) matches Some(toks) && marker_count(toks) == 0,
    ensures
        translated_sql(sql) == Some(sql),
{
}

/// The PostgreSQL text of portable SQL, where tokenizing succeeds.
pub open spec fn translated_sql(sql: Seq<char>) -> Option<Seq<char>> {
    match sql_tokens(sql) {
        Some(toks) => if marker_count(toks) == 0 {
            Some(sql)
        } else {
            Some(sql_text(translated(toks)))
        },
        None => None,
    }
}

/// Whether any token is a marker.
pub fn has_marker(toks: &Vec<SqlToken>) -> (r: bool)
    ensures
        r == (marker_count(views(toks@)) > 0),
{
    let ghost v = views(toks@);
    let mut i: usize = 0;
    let mut found = false;
    while i < toks.len()
        invariant
            v == views(toks@),
            i <= toks.len(),
            found == (marker_count(v.take(i as int)) > 0),
        decreases toks.len() - i,
    {
        proof {
            lemma_take_step(v, i as int);
        }
        if let SqlToken::Marker = &toks[i] {
            found = true;
        }
        i = i + 1;
    }
    assert(v.take(toks.len() as int) =~= v);
    found
}

/// Translates portable SQL into PostgreSQL's dialect: every bare `?` becomes
/// `$1`, `$2`, ... in order; text without markers comes back as it is, and
/// text that does not tokenize is refused.
pub fn translate_placeholders(sql: &str) -> (r: Result<String, Error>)
    ensures
        match translated_sql(sql@) {
            Some(t) => r is Ok && r->Ok_0@ == t,
            None => r is Err,
        },
{
    match tokenize_sql(sql) {
        Ok(toks) => if has_marker(&toks) {
            let native = translate_tokens(&toks);
            Ok(render_tokens(&native))
        } else {
            Ok(String::from_str(sql))
        },
        Err(msg) => Err(Error::General(msg)),
    }
}

} // verus!
