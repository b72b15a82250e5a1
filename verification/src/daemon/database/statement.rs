//! SQL statements as values: the text, the bound parameters and how to run it.
use vstd::prelude::*;
use crate::models::session::text_view;

verus! {

/// A parameter bound to a statement.  `None` is SQL `NULL`.
#[derive(Clone, Debug, PartialEq, Eq)]
pub enum Value {
    Int4(Option<i32>),
    Int8(Option<i64>),
    Bool(Option<bool>),
    Text(Option<String>),
    Json(Option<String>),
    /// Microseconds since the Unix epoch.
    Timestamp(i64),
    Bytes(Vec<u8>),
}

/// What a [`Value`] holds.
#[verifier::ext_equal]
pub enum ValueView {
    Int4(Option<i32>),
    Int8(Option<i64>),
    Bool(Option<bool>),
    Text(Option<Seq<char>>),
    Json(Option<Seq<char>>),
    Timestamp(i64),
    Bytes(Seq<u8>),
}

impl View for Value {
    type V = ValueView;

    open spec fn view(&self) -> ValueView {
        match *self {
            Value::Int4(n) => ValueView::Int4(n),
            Value::Int8(n) => ValueView::Int8(n),
            Value::Bool(b) => ValueView::Bool(b),
            Value::Text(t) => ValueView::Text(text_view(t)),
            Value::Json(t) => ValueView::Json(text_view(t)),
            Value::Timestamp(t) => ValueView::Timestamp(t),
            Value::Bytes(b) => ValueView::Bytes(b@),
        }
    }
}

/// How a statement is run, and so what comes back from it.
#[derive(Clone, Copy, Debug, PartialEq, Eq, Structural)]
pub enum Fetch {
    /// Run as a prepared statement; no row is read.
    Execute,
    /// Run the text as it is, without preparing it: it may hold several
    /// statements.
    ExecuteRaw,
    /// Exactly one row is read; its absence is an error.
    One,
    /// At most one row is read.
    Optional,
}

/// A statement ready to be sent.
#[derive(Clone, Debug, PartialEq, Eq)]
pub struct Statement {
    pub sql: String,
    pub params: Vec<Value>,
    pub fetch: Fetch,
}

/// What a [`Statement`] says.
#[verifier::ext_equal]
pub struct StatementView {
    pub sql: Seq<char>,
    pub params: Seq<ValueView>,
    pub fetch: Fetch,
}

/// The parameters of a statement, in the order of their placeholders.
pub open spec fn params_view(params: Seq<Value>) -> Seq<ValueView> {
    Seq::new(params.len(), |i: int| params[i]@)
}

impl View for Statement {
    type V = StatementView;

    open spec fn view(&self) -> StatementView {
        StatementView {
            sql: self.sql@,
            params: params_view(self.params@),
            fetch: self.fetch,
        }
    }
}

/// The decimal digit `d`.
pub open spec fn digit(d: nat) -> Seq<char> {
    seq![(d + '0' as nat) as char]
}

/// `n` in decimal, without leading zeros.
pub open spec fn decimal(n: nat) -> Seq<char>
    decreases n,
{
    if n < 10 {
        digit(n)
    } else {
        decimal(n / 10) + digit(n % 10)
    }
}

/// The placeholder of parameter number `n`, counted from one.
pub open spec fn placeholder(n: nat) -> Seq<char> {
    "$"@ + decimal(n)
}

/// The decimal digit `d` as text.
fn digit_text(d: usize) -> (text: &'static str)
    requires
        d < 10,
    ensures
        text@ == digit(d as nat),
{
    proof {
        reveal_strlit("0");
        reveal_strlit("1");
        reveal_strlit("2");
        reveal_strlit("3");
        reveal_strlit("4");
        reveal_strlit("5");
        reveal_strlit("6");
        reveal_strlit("7");
        reveal_strlit("8");
        reveal_strlit("9");
    }
    match d {
        0 => "0",
        1 => "1",
        2 => "2",
        3 => "3",
        4 => "4",
        5 => "5",
        6 => "6",
        7 => "7",
        8 => "8",
        _ => "9",
    }
}

/// Appends `n` in decimal to `out`.
pub fn push_decimal(out: &mut String, n: usize)
    ensures
        final(out)@ == old(out)@ + decimal(n as nat),
    decreases n,
{
    if n >= 10 {
        push_decimal(out, n / 10);
    }
    out.append(digit_text(n % 10));
    assert(out@ =~= old(out)@ + decimal(n as nat));
}

/// Appends the placeholder of parameter number `n` to `out`.
pub fn push_placeholder(out: &mut String, n: usize)
    ensures
        final(out)@ == old(out)@ + placeholder(n as nat),
{
    out.append("$");
    push_decimal(out, n);
    assert(out@ =~= old(out)@ + placeholder(n as nat));
}

proof fn lemma_decimal_len(n: nat)
    ensures
        decimal(n).len() >= 1,
        n >= 10 ==> decimal(n).len() >= 2,
        decimal(n).last() == (n % 10 + '0' as nat) as char,
        n >= 10 ==> decimal(n).drop_last() == decimal(n / 10),
    decreases n,
{
    if n >= 10 {
        lemma_decimal_len(n / 10);
        assert(decimal(n).drop_last() =~= decimal(n / 10));
    }
}

proof fn lemma_decimal_injective(m: nat, n: nat)
    requires
        decimal(m) == decimal(n),
    ensures
        m == n,
    decreases m,
{
    lemma_decimal_len(m);
    lemma_decimal_len(n);
    assert(m % 10 == n % 10);
    if m >= 10 && n >= 10 {
        lemma_decimal_injective(m / 10, n / 10);
    }
}

/// Each parameter has a placeholder of its own.
pub proof fn law_placeholders_distinct(m: nat, n: nat)
    requires
        placeholder(m) == placeholder(n),
    ensures
        m == n,
{
    reveal_strlit("$");
    assert(decimal(m) =~= placeholder(m).skip(1));
    assert(decimal(n) =~= placeholder(n).skip(1));
    lemma_decimal_injective(m, n);
}

} // verus!
