//! What PostgreSQL makes of a statement of the kinds that the store sends: the
//! words of its text, and what it reads and writes.
use vstd::prelude::*;
use crate::daemon::database::statement::{Statement, Value};

verus! {

/// `c` can be part of a name, a keyword, a number or a placeholder.
pub open spec fn is_word_char(c: char) -> bool {
    ||| 'a' <= c <= 'z'
    ||| 'A' <= c <= 'Z'
    ||| '0' <= c <= '9'
    ||| c == '_'
    ||| c == '$'
}

/// `c` separates words and means nothing else.
pub open spec fn is_space(c: char) -> bool {
    c == ' ' || c == '\n'
}

/// The tokens of the first `n` characters of `text`: its words, as long as they
/// go, and every other character for itself, without the spaces.
pub open spec fn tokens_of(text: Seq<char>, n: nat) -> Seq<Seq<char>>
    decreases n,
{
    if n == 0 {
        Seq::empty()
    } else {
        let earlier = tokens_of(text, (n - 1) as nat);
        let c = text[n - 1];
        if is_space(c) {
            earlier
        } else if n >= 2 && is_word_char(c) && is_word_char(text[n - 2]) {
            earlier.update(earlier.len() - 1, earlier.last().push(c))
        } else {
            earlier.push(seq![c])
        }
    }
}

/// The tokens of `text`.
pub open spec fn tokens(text: Seq<char>) -> Seq<Seq<char>> {
    tokens_of(text, text.len())
}

/// The number that decimal digits write.
pub open spec fn number(digits: Seq<char>) -> int
    decreases digits.len(),
{
    if digits.len() == 0 {
        0
    } else {
        10 * number(digits.drop_last()) + (digits.last() as int - '0' as int)
    }
}

/// `token` is the placeholder of one of `count` parameters.
pub open spec fn is_placeholder(token: Seq<char>, count: nat) -> bool {
    &&& token.len() >= 2
    &&& token[0] == '$'
    &&& forall|i: int| 1 <= i < token.len() ==> '0' <= #[trigger] token[i] <= '9'
    &&& 1 <= number(token.skip(1)) <= count
}

/// The parameter that the placeholder `token` stands for.
pub open spec fn parameter(token: Seq<char>, params: Seq<Value>) -> Value {
    params[number(token.skip(1)) - 1]
}

/// The value that `token` writes: a parameter or a constant.
pub open spec fn written_value(token: Seq<char>, params: Seq<Value>) -> Option<Value> {
    if is_placeholder(token, params.len()) {
        Some(parameter(token, params))
    } else if token == "true"@ {
        Some(Value::Bool(Some(true)))
    } else if token == "false"@ {
        Some(Value::Bool(Some(false)))
    } else if token == "0"@ {
        Some(Value::Int8(Some(0)))
    } else {
        None
    }
}

/// `v` is `NULL`.
pub open spec fn is_null(v: Value) -> bool {
    match v {
        Value::Int4(n) => n is None,
        Value::Int8(n) => n is None,
        Value::Bool(b) => b is None,
        Value::Text(t) => t is None,
        Value::Json(t) => t is None,
        Value::Timestamp(_) => false,
        Value::Bytes(_) => false,
    }
}

/// `v` is this text.
pub open spec fn is_text(v: Value, text: Seq<char>) -> bool {
    v matches Value::Text(Some(t)) && t@ == text
}

/// `v` is the optional text `text`, `NULL` without one.
pub open spec fn is_optional_text(v: Value, text: Option<String>) -> bool {
    match text {
        Some(t) => is_text(v, t@),
        None => v == Value::Text(None),
    }
}

/// `v` is the optional JSON text `text`, `NULL` without one.
pub open spec fn is_optional_json(v: Value, text: Option<String>) -> bool {
    match text {
        Some(t) => v matches Value::Json(Some(u)) && u@ == t@,
        None => v == Value::Json(None),
    }
}

/// `a` and `b` are the same value.
pub open spec fn same_value(a: Value, b: Value) -> bool {
    match (a, b) {
        (Value::Text(t), Value::Text(_)) => is_optional_text(b, t),
        (Value::Json(t), Value::Json(_)) => is_optional_json(b, t),
        (Value::Bytes(s), Value::Bytes(t)) => s@ == t@,
        _ => a == b,
    }
}

/// `a` and `b` are the same statement.
pub open spec fn same_statement(a: Statement, b: Statement) -> bool {
    &&& a.sql@ == b.sql@
    &&& a.fetch == b.fetch
    &&& a.params@.len() == b.params@.len()
    &&& forall|i: int|
        0 <= i < a.params@.len() ==> same_value(a.params@[i], #[trigger] b.params@[i])
}

/// `a = b` in SQL, for the types that the store compares: never true of `NULL`.
pub open spec fn sql_equal(a: Value, b: Value) -> bool {
    match (a, b) {
        (Value::Text(Some(s)), Value::Text(Some(t))) => s@ == t@,
        (Value::Int8(Some(m)), Value::Int8(Some(n))) => m == n,
        (Value::Int4(Some(m)), Value::Int4(Some(n))) => m == n,
        _ => false,
    }
}

/// A row: the values by the names of their columns.
pub type Row = Map<Seq<char>, Value>;

/// The token in place `i` is `token`.
pub open spec fn stands(found: Seq<Seq<char>>, i: int, token: Seq<char>) -> bool {
    0 <= i < found.len() && found[i] == token
}

/// The columns that an `INSERT` with these tokens lists.
pub open spec fn insert_columns(found: Seq<Seq<char>>) -> Seq<Seq<char>> {
    Seq::new(insert_count(found), |i: int| found[4 + 2 * i])
}

/// How many columns an `INSERT` with these tokens lists.
pub open spec fn insert_count(found: Seq<Seq<char>>) -> nat {
    ((found.len() - 6) / 4) as nat
}

/// `INSERT INTO table ( name , .. ) VALUES ( value , .. )`, with or without
/// `RETURNING id` behind it.
pub open spec fn is_insert(found: Seq<Seq<char>>) -> bool {
    let n = insert_count(found) as int;
    &&& found.len() >= 10
    &&& found.len() == 4 * n + 6 || (found.len() == 4 * n + 8 && stands(
        found,
        4 * n + 6,
        "RETURNING"@,
    ) && stands(found, 4 * n + 7, "id"@))
    &&& stands(found, 0, "INSERT"@)
    &&& stands(found, 1, "INTO"@)
    &&& stands(found, 3, "("@)
    &&& forall|i: int| 0 <= i < n - 1 ==> #[trigger] found[5 + 2 * i] == ","@
    &&& stands(found, 2 * n + 3, ")"@)
    &&& stands(found, 2 * n + 4, "VALUES"@)
    &&& stands(found, 2 * n + 5, "("@)
    &&& forall|i: int| 0 <= i < n - 1 ==> #[trigger] found[2 * n + 7 + 2 * i] == ","@
    &&& stands(found, 4 * n + 5, ")"@)
    &&& insert_columns(found).no_duplicates()
}

/// The row that the first `n` of `count` columns of an `INSERT` make.
pub open spec fn inserted_columns(
    found: Seq<Seq<char>>,
    params: Seq<Value>,
    count: nat,
    n: nat,
) -> Option<Row>
    decreases n,
{
    if n == 0 {
        Some(Map::empty())
    } else {
        match (
            inserted_columns(found, params, count, (n - 1) as nat),
            written_value(found[2 * count + 6 + 2 * (n - 1)], params),
        ) {
            (Some(row), Some(value)) => Some(row.insert(found[4 + 2 * (n - 1)], value)),
            _ => None,
        }
    }
}

/// The row that `statement` adds to `table`; none if it adds none.
pub open spec fn row_added(statement: Statement, table: Seq<char>) -> Option<Row> {
    let found = tokens(statement.sql@);
    if is_insert(found) && found[2] == table {
        inserted_columns(found, statement.params@, insert_count(found), insert_count(found))
    } else {
        None
    }
}

/// The columns that `statement` fills in the row that it adds.
pub open spec fn columns_filled(statement: Statement) -> Seq<Seq<char>> {
    insert_columns(tokens(statement.sql@))
}

/// `statement` asks for the key of the row that it adds.
pub open spec fn returns_key(statement: Statement) -> bool {
    let found = tokens(statement.sql@);
    is_insert(found) && found.len() == 4 * insert_count(found) + 8
}

/// How many columns an `UPDATE` with these tokens sets.
pub open spec fn update_count(found: Seq<Seq<char>>) -> nat {
    ((found.len() - 6) / 4) as nat
}

/// The columns that an `UPDATE` with these tokens sets.
pub open spec fn update_columns(found: Seq<Seq<char>>) -> Seq<Seq<char>> {
    Seq::new(update_count(found), |i: int| found[3 + 4 * i])
}

/// `UPDATE table SET name = value , .. WHERE id = placeholder`.
pub open spec fn is_update(found: Seq<Seq<char>>, count: nat) -> bool {
    let n = update_count(found) as int;
    &&& found.len() >= 10
    &&& found.len() == 4 * n + 6
    &&& stands(found, 0, "UPDATE"@)
    &&& stands(found, 2, "SET"@)
    &&& forall|i: int| 0 <= i < n ==> #[trigger] found[4 + 4 * i] == "="@
    &&& forall|i: int| 0 <= i < n - 1 ==> #[trigger] found[6 + 4 * i] == ","@
    &&& stands(found, 4 * n + 2, "WHERE"@)
    &&& stands(found, 4 * n + 3, "id"@)
    &&& stands(found, 4 * n + 4, "="@)
    &&& is_placeholder(found[4 * n + 5], count)
    &&& update_columns(found).no_duplicates()
}

/// What setting the first `n` columns of an `UPDATE` leaves of `row`.
pub open spec fn updated_columns(
    row: Row,
    found: Seq<Seq<char>>,
    params: Seq<Value>,
    n: nat,
) -> Option<Row>
    decreases n,
{
    if n == 0 {
        Some(row)
    } else {
        match (
            updated_columns(row, found, params, (n - 1) as nat),
            written_value(found[5 + 4 * (n - 1)], params),
        ) {
            (Some(earlier), Some(value)) => Some(earlier.insert(found[3 + 4 * (n - 1)], value)),
            _ => None,
        }
    }
}

/// The columns that `statement` sets.
pub open spec fn columns_set(statement: Statement) -> Seq<Seq<char>> {
    update_columns(tokens(statement.sql@))
}

/// What `statement`, an `UPDATE` of `table`, leaves of the row `row` with the key
/// `id`: it sets the columns of every row whose key equals the parameter, and
/// leaves the others alone.  None if it is no such statement.
pub open spec fn row_after(
    statement: Statement,
    table: Seq<char>,
    id: i32,
    row: Row,
) -> Option<Row> {
    let found = tokens(statement.sql@);
    let params = statement.params@;
    if is_update(found, params.len()) && found[1] == table {
        if sql_equal(Value::Int4(Some(id)), parameter(found.last(), params)) {
            updated_columns(row, found, params, update_count(found))
        } else {
            Some(row)
        }
    } else {
        None
    }
}

/// `SELECT target FROM table WHERE key = placeholder`.
pub open spec fn is_select(found: Seq<Seq<char>>, count: nat) -> bool {
    &&& found.len() >= 8
    &&& found[0] == "SELECT"@
    &&& found[2] == "FROM"@
    &&& found[4] == "WHERE"@
    &&& found[6] == "="@
    &&& is_placeholder(found[7], count)
}

/// The same with `AND target IS NOT NULL LIMIT 1` behind it.
pub open spec fn is_select_set(found: Seq<Seq<char>>, count: nat) -> bool {
    &&& is_select(found, count)
    &&& found.len() == 15
    &&& found[8] == "AND"@
    &&& found[9] == found[1]
    &&& found[10] == "IS"@
    &&& found[11] == "NOT"@
    &&& found[12] == "NULL"@
    &&& found[13] == "LIMIT"@
    &&& found[14] == "1"@
}

/// `statement` reads a column of `table`, from rows picked by equality.
pub open spec fn reads_from(statement: Statement, table: Seq<char>) -> bool {
    let found = tokens(statement.sql@);
    let count = statement.params@.len();
    &&& (is_select(found, count) && found.len() == 8) || is_select_set(found, count)
    &&& found[3] == table
}

/// `statement` picks `row`.
pub open spec fn picks(statement: Statement, row: Row) -> bool {
    let found = tokens(statement.sql@);
    &&& sql_equal(row[found[5]], parameter(found[7], statement.params@))
    &&& found.len() == 15 ==> !is_null(row[found[1]])
}

/// `statement`, sent to a database whose `table` holds `rows`, may come back with
/// `answer`: what it reads from one of the rows that it picks, or nothing if it
/// picks none.
pub open spec fn may_answer(
    statement: Statement,
    table: Seq<char>,
    rows: Set<Row>,
    answer: Option<Value>,
) -> bool {
    let found = tokens(statement.sql@);
    &&& reads_from(statement, table)
    &&& match answer {
        Some(value) => exists|row: Row| #[trigger]
            rows.contains(row) && picks(statement, row) && row[found[1]] == value,
        None => forall|row: Row| #[trigger] rows.contains(row) ==> !picks(statement, row),
    }
}

/// `SELECT EXISTS ( SELECT 1 FROM table WHERE key = placeholder )`.
pub open spec fn is_question(found: Seq<Seq<char>>, count: nat) -> bool {
    &&& found.len() == 12
    &&& found[0] == "SELECT"@
    &&& found[1] == "EXISTS"@
    &&& found[2] == "("@
    &&& found[3] == "SELECT"@
    &&& found[4] == "1"@
    &&& found[5] == "FROM"@
    &&& found[7] == "WHERE"@
    &&& found[9] == "="@
    &&& is_placeholder(found[10], count)
    &&& found[11] == ")"@
}

/// `statement` asks whether some row of `table` holds `value` in `column`.
pub open spec fn asks_whether(
    statement: Statement,
    table: Seq<char>,
    column: Seq<char>,
    value: Value,
) -> bool {
    let found = tokens(statement.sql@);
    &&& is_question(found, statement.params@.len())
    &&& found[6] == table
    &&& found[8] == column
    &&& parameter(found[10], statement.params@) == value
}

/// Two texts whose characters agree up to `n` places after `from`.
pub(crate) open spec fn agree(text: Seq<char>, from: int, word: Seq<char>, n: nat) -> bool
    decreases n,
{
    n == 0 || (agree(text, from, word, (n - 1) as nat) && text[from + n - 1] == word[n - 1])
}

/// `n` characters of `text` after `from` are spaces.
pub(crate) open spec fn spaces(text: Seq<char>, from: int, n: nat) -> bool
    decreases n,
{
    n == 0 || (spaces(text, from, (n - 1) as nat) && is_space(text[from + n - 1]))
}

/// The first `n` characters of `word` can be part of a word.
pub(crate) open spec fn wordy(word: Seq<char>, n: nat) -> bool
    decreases n,
{
    n == 0 || (wordy(word, (n - 1) as nat) && is_word_char(word[n - 1]))
}

proof fn lemma_agree(text: Seq<char>, from: int, word: Seq<char>, n: nat, i: int)
    requires
        agree(text, from, word, n),
        0 <= i < n,
    ensures
        text[from + i] == word[i],
    decreases n,
{
    if i < n - 1 {
        lemma_agree(text, from, word, (n - 1) as nat, i);
    }
}

proof fn lemma_wordy(word: Seq<char>, n: nat, i: int)
    requires
        wordy(word, n),
        0 <= i < n,
    ensures
        is_word_char(word[i]),
    decreases n,
{
    if i < n - 1 {
        lemma_wordy(word, (n - 1) as nat, i);
    }
}

proof fn lemma_spaces(text: Seq<char>, from: int, n: nat)
    requires
        spaces(text, from, n),
        from >= 0,
    ensures
        tokens_of(text, (from + n) as nat) == tokens_of(text, from as nat),
    decreases n,
{
    if n > 0 {
        lemma_spaces(text, from, (n - 1) as nat);
    }
}

proof fn lemma_word(text: Seq<char>, from: int, word: Seq<char>, n: nat)
    requires
        0 <= from,
        1 <= n <= word.len(),
        wordy(word, word.len()),
        agree(text, from, word, word.len()),
        from == 0 || !is_word_char(text[from - 1]),
    ensures
        tokens_of(text, (from + n) as nat) == tokens_of(text, from as nat).push(word.take(n as int)),
    decreases n,
{
    lemma_agree(text, from, word, word.len(), n - 1);
    lemma_wordy(word, word.len(), n - 1);
    let before = tokens_of(text, from as nat);
    if n == 1 {
        assert(word.take(1) =~= seq![word[0]]);
    } else {
        lemma_word(text, from, word, (n - 1) as nat);
        lemma_agree(text, from, word, word.len(), n - 2);
        lemma_wordy(word, word.len(), n - 2);
        let shorter = word.take(n - 1);
        assert(shorter.push(word[n - 1]) =~= word.take(n as int));
        assert(before.push(shorter).update(before.len() as int, word.take(n as int))
            =~= before.push(word.take(n as int)));
    }
}

/// The text goes on, after `gap` spaces, with `word`.
pub(crate) proof fn lemma_next_word(text: Seq<char>, from: int, gap: nat, word: Seq<char>)
    requires
        0 <= from,
        spaces(text, from, gap),
        word.len() > 0,
        wordy(word, word.len()),
        agree(text, from + gap, word, word.len()),
        from + gap == 0 || !is_word_char(text[from + gap - 1]),
    ensures
        tokens_of(text, (from + gap + word.len()) as nat) == tokens_of(text, from as nat).push(
            word,
        ),
{
    lemma_spaces(text, from, gap);
    lemma_word(text, from + gap, word, word.len());
    assert(word.take(word.len() as int) =~= word);
}

/// The text goes on, after `gap` spaces, with the symbol `symbol`.
pub(crate) proof fn lemma_next_symbol(text: Seq<char>, from: int, gap: nat, symbol: Seq<char>)
    requires
        0 <= from,
        spaces(text, from, gap),
        symbol.len() == 1,
        text[from + gap] == symbol[0],
        !is_space(symbol[0]),
        !is_word_char(symbol[0]),
    ensures
        tokens_of(text, (from + gap + 1) as nat) == tokens_of(text, from as nat).push(symbol),
{
    lemma_spaces(text, from, gap);
    assert(seq![symbol[0]] =~= symbol);
}

/// The text goes on with `gap` spaces.
pub(crate) proof fn lemma_next_spaces(text: Seq<char>, from: int, gap: nat)
    requires
        0 <= from,
        spaces(text, from, gap),
    ensures
        tokens_of(text, (from + gap) as nat) == tokens_of(text, from as nat),
{
    lemma_spaces(text, from, gap);
}

proof fn lemma_some_token(text: Seq<char>, n: nat)
    requires
        n > 0,
        is_word_char(text[n - 1]),
    ensures
        tokens_of(text, n).len() > 0,
    decreases n,
{
    if n >= 2 && is_word_char(text[n - 2]) {
        lemma_some_token(text, (n - 1) as nat);
    }
}

proof fn lemma_prefix(a: Seq<char>, b: Seq<char>, n: nat)
    requires
        n <= a.len(),
    ensures
        tokens_of(a + b, n) == tokens_of(a, n),
    decreases n,
{
    if n > 0 {
        lemma_prefix(a, b, (n - 1) as nat);
    }
}

proof fn lemma_rest(a: Seq<char>, b: Seq<char>, n: nat)
    requires
        n <= b.len(),
        a.len() == 0 || b.len() == 0 || !is_word_char(a.last()) || !is_word_char(b[0]),
    ensures
        tokens_of(a + b, a.len() + n) == tokens(a) + tokens_of(b, n),
    decreases n,
{
    let text = a + b;
    if n == 0 {
        lemma_prefix(a, b, a.len());
        assert(tokens(a) + tokens_of(b, 0) =~= tokens(a));
    } else {
        lemma_rest(a, b, (n - 1) as nat);
        let before = tokens(a);
        let earlier = tokens_of(b, (n - 1) as nat);
        let c = b[n - 1];
        assert(text[a.len() + n - 1] == c);
        if n >= 2 {
            assert(text[a.len() + n - 2] == b[n - 2]);
        } else if a.len() > 0 {
            assert(text[a.len() - 1] == a.last());
        }
        if is_space(c) {
        } else if n >= 2 && is_word_char(c) && is_word_char(b[n - 2]) {
            lemma_some_token(b, (n - 1) as nat);
            let longer = earlier.last().push(c);
            assert((before + earlier).last() == earlier.last());
            assert((before + earlier).update(before.len() + earlier.len() - 1, longer)
                =~= before + earlier.update(earlier.len() - 1, longer));
        } else {
            assert((before + earlier).push(seq![c]) =~= before + earlier.push(seq![c]));
        }
    }
}

/// Two texts that no word runs through have the tokens of the first and then those
/// of the second.
pub(crate) proof fn lemma_tokens_add(a: Seq<char>, b: Seq<char>)
    requires
        a.len() == 0 || b.len() == 0 || !is_word_char(a.last()) || !is_word_char(b[0]),
    ensures
        tokens(a + b) == tokens(a) + tokens(b),
{
    lemma_rest(a, b, b.len());
}

/// A word is its own token.
pub(crate) proof fn lemma_one_word(word: Seq<char>)
    requires
        word.len() > 0,
        wordy(word, word.len()),
    ensures
        tokens(word) == seq![word],
{
    assert forall|n: nat| n <= word.len() implies #[trigger] agree(word, 0, word, n) by {
        lemma_agrees_with_itself(word, n);
    }
    assert(agree(word, 0, word, word.len()));
    lemma_next_word(word, 0, 0, word);
    assert(tokens_of(word, 0).push(word) =~= seq![word]);
}

proof fn lemma_agrees_with_itself(word: Seq<char>, n: nat)
    ensures
        agree(word, 0, word, n),
    decreases n,
{
    if n > 0 {
        lemma_agrees_with_itself(word, (n - 1) as nat);
    }
}

} // verus!
