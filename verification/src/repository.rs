//! The SQL that the Postgres repository sends, and how a change request is
//! turned into one statement with its bound values.

use vstd::prelude::*;
use vstd::string::*;
use crate::models::{TodoFilter, UpdateTodo};
use crate::text::{decimal, decimal_string};

verus! {

/// Inserts a todo (`$1` title, `$2` description) and returns the stored row.
pub const INSERT_TODO_SQL: &'static str = "\n            INSERT INTO todos (title, description)\n            VALUES ($1, $2)\n            RETURNING id, title, description, completed as \"completed!\", created_at as \"created_at!\", updated_at as \"updated_at!\"\n            ";

/// Lists every todo, newest first.
pub const LIST_TODOS_SQL: &'static str = "\n                SELECT id, title, description, completed as \"completed!\", created_at as \"created_at!\", updated_at as \"updated_at!\"\n                FROM todos\n                ORDER BY created_at DESC\n                ";

/// Lists the todos whose completion state is `$1`, newest first.
pub const LIST_TODOS_BY_COMPLETED_SQL: &'static str = "\n                SELECT id, title, description, completed as \"completed!\", created_at as \"created_at!\", updated_at as \"updated_at!\"\n                FROM todos\n                WHERE completed = $1\n                ORDER BY created_at DESC\n                ";

/// Fetches the todo whose identifier is `$1`.
pub const SELECT_TODO_SQL: &'static str = "\n            SELECT id, title, description, completed as \"completed!\", created_at as \"created_at!\", updated_at as \"updated_at!\"\n            FROM todos\n            WHERE id = $1\n            ";

/// Fetches the todo whose identifier is `$1`: what a change request with no
/// field sends in place of a change.
pub const UPDATE_FETCH_TODO_SQL: &'static str = "\n                    SELECT id, title, description, completed as \"completed!\", created_at as \"created_at!\", updated_at as \"updated_at!\"\n                    FROM todos\n                    WHERE id = $1\n                    ";

/// Tells whether a todo with identifier `$1` exists.
pub const TODO_EXISTS_SQL: &'static str = "SELECT id FROM todos WHERE id = $1";

/// The start of a change statement; it always refreshes `updated_at`.
pub const UPDATE_TODO_HEAD_SQL: &'static str = "UPDATE todos SET updated_at = NOW()";

/// What follows the identifier placeholder of a change statement.
pub const UPDATE_TODO_TAIL_SQL: &'static str = " RETURNING id, title, description, completed, created_at, updated_at";

/// One value bound to a change statement, with the column it sets.
#[derive(Debug, Clone)]
pub enum UpdateParam {
    Title(String),
    Description(String),
    Completed(bool),
}

/// A statement that changes (or, with nothing to change, fetches) one todo:
/// `params` are bound to `$1 ..= $n` in order, and the todo's identifier to
/// `$(n + 1)`.
#[derive(Debug, Clone)]
pub struct UpdateStatement {
    pub sql: String,
    pub params: Vec<UpdateParam>,
}

/// The values a change request binds: its present fields, in the order
/// title, description, completed.
pub open spec fn update_params(p: UpdateTodo) -> Seq<UpdateParam> {
    let t = match p.title {
        Some(v) => seq![UpdateParam::Title(v)],
        None => Seq::empty(),
    };
    let d = match p.description {
        Some(v) => seq![UpdateParam::Description(v)],
        None => Seq::empty(),
    };
    let c = match p.completed {
        Some(v) => seq![UpdateParam::Completed(v)],
        None => Seq::empty(),
    };
    t + d + c
}

/// The text that opens the assignment of a bound value, up to its `$`.
pub open spec fn assignment_head(p: UpdateParam) -> Seq<char> {
    match p {
        UpdateParam::Title(_) => ", title = $"@,
        UpdateParam::Description(_) => ", description = $"@,
        UpdateParam::Completed(_) => ", completed = $"@,
    }
}

/// The assignments of the bound values: the `i`-th (from 1) sets its column
/// to `$i`.
pub open spec fn assignments(ps: Seq<UpdateParam>) -> Seq<char>
    decreases ps.len(),
{
    if ps.len() == 0 {
        Seq::empty()
    } else {
        assignments(ps.drop_last()) + assignment_head(ps.last()) + decimal(ps.len())
    }
}

/// The statement for these bound values: with none, the plain fetch by
/// identifier (`$1`); otherwise the change that sets each value's column,
/// refreshes `updated_at`, selects the todo by `$(n + 1)` and returns it.
pub open spec fn update_sql(ps: Seq<UpdateParam>) -> Seq<char> {
    if ps.len() == 0 {
        UPDATE_FETCH_TODO_SQL@
    } else {
        UPDATE_TODO_HEAD_SQL@ + assignments(ps) + " WHERE id = $"@ + decimal(ps.len() + 1)
            + UPDATE_TODO_TAIL_SQL@
    }
}

/// Appends the assignment of `param`, the next bound value, to `sql` and
/// `param` to `params`.
fn push_assignment(sql: &mut String, params: &mut Vec<UpdateParam>, param: UpdateParam)
    requires
        old(params).len() < 3,
        old(sql)@ == UPDATE_TODO_HEAD_SQL@ + assignments(old(params)@),
    ensures
        final(params)@ == old(params)@.push(param),
        final(sql)@ == UPDATE_TODO_HEAD_SQL@ + assignments(final(params)@),
{
    let head = match &param {
        UpdateParam::Title(_) => ", title = $",
        UpdateParam::Description(_) => ", description = $",
        UpdateParam::Completed(_) => ", completed = $",
    };
    sql.append(head);
    let index: u64 = params.len() as u64 + 1;
    let digits = decimal_string(index);
    sql.append(digits.as_str());
    let ghost before = params@;
    params.push(param);
    proof {
        assert(params@.drop_last() =~= before);
        assert(sql@ =~= UPDATE_TODO_HEAD_SQL@ + assignments(params@));
    }
}

/// The statement that carries out a change request: each present field, in
/// the order title, description, completed, becomes the next bound value; a
/// request with no field becomes a plain fetch.
pub fn update_statement(payload: UpdateTodo) -> (r: UpdateStatement)
    ensures
        r.params@ == update_params(payload),
        r.sql@ == update_sql(r.params@),
{
    let ghost p = payload;
    let mut params: Vec<UpdateParam> = Vec::new();
    let mut sql = String::from_str(UPDATE_TODO_HEAD_SQL);
    proof {
        assert(sql@ =~= UPDATE_TODO_HEAD_SQL@ + assignments(params@));
    }
    if let Some(title) = payload.title {
        push_assignment(&mut sql, &mut params, UpdateParam::Title(title));
    }
    if let Some(description) = payload.description {
        push_assignment(&mut sql, &mut params, UpdateParam::Description(description));
    }
    if let Some(completed) = payload.completed {
        push_assignment(&mut sql, &mut params, UpdateParam::Completed(completed));
    }
    proof {
        assert(params@ =~= update_params(p));
    }
    if params.len() == 0 {
        return UpdateStatement { sql: String::from_str(UPDATE_FETCH_TODO_SQL), params };
    }
    sql.append(" WHERE id = $");
    let id_index: u64 = params.len() as u64 + 1;
    let digits = decimal_string(id_index);
    sql.append(digits.as_str());
    sql.append(UPDATE_TODO_TAIL_SQL);
    proof {
        assert(sql@ =~= update_sql(params@));
    }
    UpdateStatement { sql, params }
}

/// The listing statement for a filter: by completion state (bound to `$1`)
/// when the filter names one, all todos otherwise.
pub fn list_sql(filter: &TodoFilter) -> (r: &'static str)
    ensures
        r@ == (if filter.completed() is Some { LIST_TODOS_BY_COMPLETED_SQL@ } else { LIST_TODOS_SQL@ }),
{
    match filter.completed() {
        Some(_) => LIST_TODOS_BY_COMPLETED_SQL,
        None => LIST_TODOS_SQL,
    }
}

} // verus!

verus! {

/// The number of `$` signs in `s` from position `i` on.
pub open spec fn dollars_from(s: Seq<char>, i: nat) -> nat
    decreases s.len() - i,
{
    if i >= s.len() {
        0
    } else {
        (if s[i as int] == '$' { 1nat } else { 0nat }) + dollars_from(s, i + 1)
    }
}

/// The number of `$` signs in `s`, that is of placeholders in a statement.
pub open spec fn dollar_count(s: Seq<char>) -> nat {
    dollars_from(s, 0)
}

proof fn lemma_dollars_from_concat(a: Seq<char>, b: Seq<char>, i: nat)
    requires
        i <= a.len(),
    ensures
        dollars_from(a + b, i) == dollars_from(a, i) + dollar_count(b),
    decreases a.len() - i,
{
    if i < a.len() {
        lemma_dollars_from_concat(a, b, i + 1);
        assert((a + b)[i as int] == a[i as int]);
    } else {
        lemma_dollars_from_shift(a, b, 0);
        assert(a.len() + 0 == i);
    }
}

proof fn lemma_dollars_from_shift(a: Seq<char>, b: Seq<char>, j: nat)
    requires
        j <= b.len(),
    ensures
        dollars_from(a + b, a.len() + j) == dollars_from(b, j),
    decreases b.len() - j,
{
    if j < b.len() {
        lemma_dollars_from_shift(a, b, j + 1);
        assert((a + b)[(a.len() + j) as int] == b[j as int]);
    }
}

proof fn lemma_dollar_count_concat(a: Seq<char>, b: Seq<char>)
    ensures
        dollar_count(a + b) == dollar_count(a) + dollar_count(b),
{
    lemma_dollars_from_concat(a, b, 0);
}

proof fn lemma_dollars_absent(s: Seq<char>, i: nat)
    requires
        forall|k: int| 0 <= k < s.len() ==> s[k] != '$',
    ensures
        dollars_from(s, i) == 0,
    decreases s.len() - i,
{
    if i < s.len() {
        lemma_dollars_absent(s, i + 1);
    }
}

proof fn lemma_decimal_digits(n: nat)
    ensures
        forall|k: int| 0 <= k < decimal(n).len() ==> decimal(n)[k] != '$',
    decreases n,
{
    if n >= 10 {
        lemma_decimal_digits(n / 10);
        assert forall|k: int| 0 <= k < decimal(n).len() implies decimal(n)[k] != '$' by {
            if k < decimal(n / 10).len() {
                assert(decimal(n)[k] == decimal(n / 10)[k]);
            }
        }
    }
}

proof fn lemma_decimal_no_dollar(n: nat)
    ensures
        dollar_count(decimal(n)) == 0,
{
    lemma_decimal_digits(n);
    lemma_dollars_absent(decimal(n), 0);
}

proof fn lemma_literals_dollars()
    ensures
        dollar_count(UPDATE_TODO_HEAD_SQL@) == 0,
        dollar_count(UPDATE_TODO_TAIL_SQL@) == 0,
        dollar_count(UPDATE_FETCH_TODO_SQL@) == 1,
        dollar_count(" WHERE id = $"@) == 1,
        dollar_count(", title = $"@) == 1,
        dollar_count(", description = $"@) == 1,
        dollar_count(", completed = $"@) == 1,
{
    reveal_with_fuel(dollars_from, 110);
    reveal_strlit("UPDATE todos SET updated_at = NOW()");
    reveal_strlit(" RETURNING id, title, description, completed, created_at, updated_at");
    reveal_strlit("\n                    SELECT id, title, description, completed as \"completed!\", created_at as \"created_at!\", updated_at as \"updated_at!\"\n                    FROM todos\n                    WHERE id = $1\n                    ");
    reveal_strlit(" WHERE id = $");
    reveal_strlit(", title = $");
    reveal_strlit(", description = $");
    reveal_strlit(", completed = $");
    let fetch = UPDATE_FETCH_TODO_SQL@;
    assert(dollars_from(fetch, 210) == 0);
    assert(dollars_from(fetch, 180) == 1);
    assert(dollars_from(fetch, 150) == 1);
    assert(dollars_from(fetch, 120) == 1);
    assert(dollars_from(fetch, 90) == 1);
    assert(dollars_from(fetch, 60) == 1);
    assert(dollars_from(fetch, 30) == 1);
    assert(dollars_from(fetch, 0) == 1);
}

proof fn lemma_assignments_dollars(ps: Seq<UpdateParam>)
    ensures
        dollar_count(assignments(ps)) == ps.len(),
    decreases ps.len(),
{
    if ps.len() > 0 {
        let rest = ps.drop_last();
        lemma_assignments_dollars(rest);
        lemma_literals_dollars();
        lemma_decimal_no_dollar(ps.len());
        lemma_dollar_count_concat(assignments(rest), assignment_head(ps.last()));
        lemma_dollar_count_concat(
            assignments(rest) + assignment_head(ps.last()),
            decimal(ps.len()),
        );
    }
}

/// Law: the statement for a change request holds exactly one placeholder
/// (`$`) for each value it binds and one more for the todo's identifier, so
/// what is bound always matches what the statement asks for; a request with
/// no field sends the fetch, whose one placeholder is the identifier.
pub proof fn lemma_update_placeholders(payload: UpdateTodo)
    ensures
        dollar_count(update_sql(update_params(payload))) == update_params(payload).len() + 1,
{
    let ps = update_params(payload);
    lemma_literals_dollars();
    if ps.len() > 0 {
        let a = UPDATE_TODO_HEAD_SQL@;
        let b = assignments(ps);
        let c = " WHERE id = $"@;
        let d = decimal(ps.len() + 1);
        let e = UPDATE_TODO_TAIL_SQL@;
        lemma_assignments_dollars(ps);
        lemma_decimal_no_dollar(ps.len() + 1);
        lemma_dollar_count_concat(a, b);
        lemma_dollar_count_concat(a + b, c);
        lemma_dollar_count_concat(a + b + c, d);
        lemma_dollar_count_concat(a + b + c + d, e);
    }
}

/// Law: a change request binds one value per field it carries, at most
/// three, and binds nothing (sending the plain fetch, which leaves the todo
/// and its `updated_at` untouched) exactly when it carries none.
pub proof fn lemma_update_params_fields(payload: UpdateTodo)
    ensures
        update_params(payload).len() == (if payload.title is Some { 1int } else { 0int })
            + (if payload.description is Some { 1int } else { 0int })
            + (if payload.completed is Some { 1int } else { 0int }),
        update_params(payload).len() <= 3,
        (update_params(payload).len() == 0) == (payload.title is None
            && payload.description is None && payload.completed is None),
        update_params(payload).len() == 0 ==> update_sql(update_params(payload)) == UPDATE_FETCH_TODO_SQL@,
{
}

/// Where a kind of bound value stands in the order title, description,
/// completed.
pub open spec fn param_rank(x: UpdateParam) -> int {
    match x {
        UpdateParam::Title(_) => 0,
        UpdateParam::Description(_) => 1,
        UpdateParam::Completed(_) => 2,
    }
}

/// Law: each field of a change request is bound to its own column with the
/// request's own value, and only the fields it carries are bound: the values
/// hold `Title(t)` exactly when the request's title is `Some(t)`,
/// `Description(d)` exactly when its description is `Some(d)`, and
/// `Completed(c)` exactly when its completion state is `Some(c)`; they come
/// in the order title, description, completed, each kind at most once.
pub proof fn lemma_update_binds_request_values(p: UpdateTodo)
    ensures
        forall|t: String| update_params(p).contains(UpdateParam::Title(t)) <==> p.title == Some(t),
        forall|d: String|
            update_params(p).contains(UpdateParam::Description(d)) <==> p.description == Some(d),
        forall|c: bool|
            update_params(p).contains(UpdateParam::Completed(c)) <==> p.completed == Some(c),
        forall|i: int, j: int|
            0 <= i < j < update_params(p).len() ==> param_rank(update_params(p)[i]) < param_rank(
                update_params(p)[j],
            ),
{
    let ps = update_params(p);
    match (p.title, p.description, p.completed) {
        (Some(t), Some(d), Some(c)) => {
            assert(ps =~= seq![UpdateParam::Title(t), UpdateParam::Description(d), UpdateParam::Completed(c)]);
        },
        (Some(t), Some(d), None) => {
            assert(ps =~= seq![UpdateParam::Title(t), UpdateParam::Description(d)]);
        },
        (Some(t), None, Some(c)) => {
            assert(ps =~= seq![UpdateParam::Title(t), UpdateParam::Completed(c)]);
        },
        (Some(t), None, None) => {
            assert(ps =~= seq![UpdateParam::Title(t)]);
        },
        (None, Some(d), Some(c)) => {
            assert(ps =~= seq![UpdateParam::Description(d), UpdateParam::Completed(c)]);
        },
        (None, Some(d), None) => {
            assert(ps =~= seq![UpdateParam::Description(d)]);
        },
        (None, None, Some(c)) => {
            assert(ps =~= seq![UpdateParam::Completed(c)]);
        },
        (None, None, None) => {
            assert(ps =~= Seq::<UpdateParam>::empty());
        },
    }
    assert forall|t: String| ps.contains(UpdateParam::Title(t)) <==> p.title == Some(t) by {
        if p.title == Some(t) {
            assert(ps[0] == UpdateParam::Title(t));
        }
    }
    assert forall|d: String| ps.contains(UpdateParam::Description(d)) <==> p.description == Some(d) by {
        if p.description == Some(d) {
            let k: int = if p.title is Some { 1 } else { 0 };
            assert(ps[k] == UpdateParam::Description(d));
        }
    }
    assert forall|c: bool| ps.contains(UpdateParam::Completed(c)) <==> p.completed == Some(c) by {
        if p.completed == Some(c) {
            assert(ps[ps.len() - 1] == UpdateParam::Completed(c));
        }
    }
}

} // verus!
