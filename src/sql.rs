//! Statement text with positional placeholders numbered in the order of the
//! bound values.
use vstd::prelude::*;
use vstd::string::*;
use crate::query::{Assignment, Field, Param, Predicate, Query};
use crate::schema::{Schema, TableSpec};

verus! {

/// Statement text with its bound values; `$k` in the text stands for
/// `params[k - 1]`.
#[derive(Debug, Clone)]
pub struct Statement {
    pub sql: String,
    pub params: Vec<Param>,
}

pub open spec fn digit_char(d: int) -> char {
    if d == 0 {
        '0'
    } else if d == 1 {
        '1'
    } else if d == 2 {
        '2'
    } else if d == 3 {
        '3'
    } else if d == 4 {
        '4'
    } else if d == 5 {
        '5'
    } else if d == 6 {
        '6'
    } else if d == 7 {
        '7'
    } else if d == 8 {
        '8'
    } else {
        '9'
    }
}

/// Decimal digits of `n`, without leading zeros.
pub open spec fn decimal(n: nat) -> Seq<char>
    decreases n,
{
    if n < 10 {
        seq![digit_char(n as int)]
    } else {
        decimal(n / 10).push(digit_char(n as int % 10))
    }
}

/// The placeholder of the `n`-th bound value.
pub open spec fn placeholder(n: nat) -> Seq<char> {
    seq!['$'] + decimal(n)
}

/// A column name as a quoted identifier.
pub open spec fn quoted(name: Seq<char>) -> Seq<char> {
    seq!['"'] + name + seq!['"']
}

/// `items` with `sep` between each two.
pub open spec fn joined(items: Seq<Seq<char>>, sep: Seq<char>) -> Seq<char>
    decreases items.len(),
{
    if items.len() == 0 {
        Seq::empty()
    } else if items.len() == 1 {
        items[0]
    } else {
        joined(items.drop_last(), sep) + sep + items.last()
    }
}

pub open spec fn field_name(schema: TableSpec, f: Field) -> Seq<char> {
    match f {
        Field::Id => "id"@,
        Field::Column(i) => schema.columns[i as int],
    }
}

/// Every column index that `f` names lies in the schema.
pub open spec fn field_ok(schema: TableSpec, f: Field) -> bool {
    match f {
        Field::Id => true,
        Field::Column(i) => i < schema.columns.len(),
    }
}

/// `"column" = $n`.
pub open spec fn equation(name: Seq<char>, n: nat) -> Seq<char> {
    quoted(name) + " = "@ + placeholder(n)
}

/// The conditions of the predicates, numbered from `first`.
pub open spec fn conditions(schema: TableSpec, preds: Seq<Predicate>, first: nat) -> Seq<Seq<char>> {
    Seq::new(preds.len(), |k: int| equation(field_name(schema, preds[k].field), first + k as nat))
}

/// The `WHERE` part for the predicates, empty where there are none.
pub open spec fn where_clause(schema: TableSpec, preds: Seq<Predicate>, first: nat) -> Seq<char> {
    if preds.len() == 0 {
        Seq::empty()
    } else {
        " WHERE "@ + joined(conditions(schema, preds, first), " AND "@)
    }
}

/// The `SET` items of an update, numbered from 2 (`$1` is the identifier).
pub open spec fn set_items(schema: TableSpec, sets: Seq<Assignment>) -> Seq<Seq<char>> {
    Seq::new(
        sets.len(),
        |k: int| equation(schema.columns[sets[k].column as int], (k + 2) as nat),
    )
}

pub open spec fn column_names(schema: TableSpec) -> Seq<Seq<char>> {
    Seq::new(schema.columns.len(), |k: int| quoted(schema.columns[k]))
}

pub open spec fn placeholders(n: nat) -> Seq<Seq<char>> {
    Seq::new(n, |k: int| placeholder((k + 1) as nat))
}

pub open spec fn values_of(preds: Seq<Predicate>) -> Seq<Param> {
    Seq::new(preds.len(), |k: int| preds[k].value)
}

pub open spec fn assigned_values(sets: Seq<Assignment>) -> Seq<Param> {
    Seq::new(sets.len(), |k: int| sets[k].value)
}

/// Every column index in the query lies in the schema, and an insert has a
/// value for each column.
pub open spec fn query_fits(schema: TableSpec, q: Query) -> bool {
    match q {
        Query::Count { filters } => forall|k: int|
            0 <= k < filters@.len() ==> field_ok(schema, #[trigger] filters@[k].field),
        Query::Page { filters, .. } => forall|k: int|
            0 <= k < filters@.len() ==> field_ok(schema, #[trigger] filters@[k].field),
        Query::SelectOne { filters } => forall|k: int|
            0 <= k < filters@.len() ==> field_ok(schema, #[trigger] filters@[k].field),
        Query::Insert { values } => values@.len() == schema.columns.len(),
        Query::Update { sets, .. } => forall|k: int|
            0 <= k < sets@.len() ==> #[trigger] sets@[k].column < schema.columns.len(),
        Query::Delete { .. } => true,
    }
}

pub open spec fn count_text(schema: TableSpec, filters: Seq<Predicate>) -> Seq<char> {
    "SELECT COUNT(*) FROM "@ + quoted(schema.table) + where_clause(schema, filters, 1)
}

pub open spec fn page_text(schema: TableSpec, filters: Seq<Predicate>) -> Seq<char> {
    "SELECT * FROM "@ + quoted(schema.table) + where_clause(schema, filters, 3)
        + " ORDER BY \"createdAt\" LIMIT $1 OFFSET $2"@
}

pub open spec fn select_text(schema: TableSpec, filters: Seq<Predicate>) -> Seq<char> {
    "SELECT * FROM "@ + quoted(schema.table) + where_clause(schema, filters, 1)
}

pub open spec fn insert_text(schema: TableSpec, n: nat) -> Seq<char> {
    "INSERT INTO "@ + quoted(schema.table) + " ("@ + joined(column_names(schema), ", "@)
        + ") VALUES ("@ + joined(placeholders(n), ", "@) + ") RETURNING *"@
}

pub open spec fn update_text(schema: TableSpec, sets: Seq<Assignment>) -> Seq<char> {
    "UPDATE "@ + quoted(schema.table) + " SET "@ + joined(set_items(schema, sets), ", "@)
        + ", \"updatedAt\" = now() WHERE \"id\" = $1 RETURNING *"@
}

pub open spec fn delete_text(schema: TableSpec) -> Seq<char> {
    "DELETE FROM "@ + quoted(schema.table) + " WHERE \"id\" = $1 RETURNING *"@
}

/// The text of a query on the schema's table.
pub open spec fn sql_text(schema: TableSpec, q: Query) -> Seq<char> {
    match q {
        Query::Count { filters } => count_text(schema, filters@),
        Query::Page { filters, .. } => page_text(schema, filters@),
        Query::SelectOne { filters } => select_text(schema, filters@),
        Query::Insert { values } => insert_text(schema, values@.len()),
        Query::Update { sets, .. } => update_text(schema, sets@),
        Query::Delete { .. } => delete_text(schema),
    }
}

/// The values bound to a query's placeholders, in order.
pub open spec fn bound_values(q: Query) -> Seq<Param> {
    match q {
        Query::Count { filters } => values_of(filters@),
        Query::Page { limit, offset, filters } => seq![Param::BigInt(limit), Param::BigInt(offset)]
            + values_of(filters@),
        Query::SelectOne { filters } => values_of(filters@),
        Query::Insert { values } => values@,
        Query::Update { id, sets } => seq![Param::Uuid(id)] + assigned_values(sets@),
        Query::Delete { id } => seq![Param::Uuid(id)],
    }
}

fn push_digit(out: &mut String, d: usize)
    requires
        d < 10,
    ensures
        final(out)@ == old(out)@.push(digit_char(d as int)),
{
    let s: &str = if d == 0 {
        proof { reveal_strlit("0"); }
        "0"
    } else if d == 1 {
        proof { reveal_strlit("1"); }
        "1"
    } else if d == 2 {
        proof { reveal_strlit("2"); }
        "2"
    } else if d == 3 {
        proof { reveal_strlit("3"); }
        "3"
    } else if d == 4 {
        proof { reveal_strlit("4"); }
        "4"
    } else if d == 5 {
        proof { reveal_strlit("5"); }
        "5"
    } else if d == 6 {
        proof { reveal_strlit("6"); }
        "6"
    } else if d == 7 {
        proof { reveal_strlit("7"); }
        "7"
    } else if d == 8 {
        proof { reveal_strlit("8"); }
        "8"
    } else {
        proof { reveal_strlit("9"); }
        "9"
    };
    assert(s@ == seq![digit_char(d as int)]);
    out.append(s);
}

fn push_decimal(out: &mut String, n: usize)
    ensures
        final(out)@ == old(out)@ + decimal(n as nat),
    decreases n,
{
    if n >= 10 {
        push_decimal(out, n / 10);
    }
    push_digit(out, n % 10);
}

fn push_placeholder(out: &mut String, n: usize)
    ensures
        final(out)@ == old(out)@ + placeholder(n as nat),
{
    proof { reveal_strlit("$"); }
    out.append("$");
    push_decimal(out, n);
    assert(out@ == old(out)@ + placeholder(n as nat));
}

fn push_quoted(out: &mut String, name: &str)
    ensures
        final(out)@ == old(out)@ + quoted(name@),
{
    proof { reveal_strlit("\""); }
    out.append("\"");
    out.append(name);
    out.append("\"");
}

fn push_equation(out: &mut String, name: &str, n: usize)
    ensures
        final(out)@ == old(out)@ + equation(name@, n as nat),
{
    push_quoted(out, name);
    out.append(" = ");
    push_placeholder(out, n);
}

proof fn lemma_joined_push(items: Seq<Seq<char>>, sep: Seq<char>, x: Seq<char>)
    requires
        items.len() > 0,
    ensures
        joined(items.push(x), sep) == joined(items, sep) + sep + x,
{
    assert(items.push(x).drop_last() == items);
}

fn push_conditions(out: &mut String, schema: &Schema, preds: &Vec<Predicate>, first: usize)
    requires
        first + preds@.len() <= usize::MAX,
        forall|k: int| 0 <= k < preds@.len() ==> field_ok(schema@, #[trigger] preds@[k].field),
    ensures
        final(out)@ == old(out)@ + joined(conditions(schema@, preds@, first as nat), " AND "@),
{
    let ghost start = out@;
    let mut i: usize = 0;
    while i < preds.len()
        invariant
            i <= preds@.len(),
            first + preds@.len() <= usize::MAX,
            forall|k: int| 0 <= k < preds@.len() ==> field_ok(schema@, #[trigger] preds@[k].field),
            out@ == start + joined(conditions(schema@, preds@.take(i as int), first as nat), " AND "@),
        decreases preds@.len() - i,
    {
        let ghost before = conditions(schema@, preds@.take(i as int), first as nat);
        let ghost after = conditions(schema@, preds@.take(i as int + 1), first as nat);
        let ghost item = equation(field_name(schema@, preds@[i as int].field), (first + i) as nat);
        assert(after == before.push(item));
        if i > 0 {
            out.append(" AND ");
            proof { lemma_joined_push(before, " AND "@, item); }
        } else {
            assert(after == seq![item]);
        }
        assert(field_ok(schema@, preds@[i as int].field));
        match preds[i].field {
            Field::Id => {
                proof { reveal_strlit("id"); }
                push_equation(out, "id", first + i);
            },
            Field::Column(c) => push_equation(out, schema.columns[c].name.as_str(), first + i),
        }
        i = i + 1;
    }
    assert(preds@.take(preds@.len() as int) == preds@);
}

fn push_where(out: &mut String, schema: &Schema, preds: &Vec<Predicate>, first: usize)
    requires
        first + preds@.len() <= usize::MAX,
        forall|k: int| 0 <= k < preds@.len() ==> field_ok(schema@, #[trigger] preds@[k].field),
    ensures
        final(out)@ == old(out)@ + where_clause(schema@, preds@, first as nat),
{
    if preds.len() > 0 {
        out.append(" WHERE ");
        push_conditions(out, schema, preds, first);
    }
}

fn push_set_items(out: &mut String, schema: &Schema, sets: &Vec<Assignment>)
    requires
        sets@.len() + 2 <= usize::MAX,
        forall|k: int| 0 <= k < sets@.len() ==> #[trigger] sets@[k].column < schema@.columns.len(),
    ensures
        final(out)@ == old(out)@ + joined(set_items(schema@, sets@), ", "@),
{
    let ghost start = out@;
    let mut i: usize = 0;
    while i < sets.len()
        invariant
            i <= sets@.len(),
            sets@.len() + 2 <= usize::MAX,
            forall|k: int| 0 <= k < sets@.len() ==> #[trigger] sets@[k].column < schema@.columns.len(),
            out@ == start + joined(set_items(schema@, sets@.take(i as int)), ", "@),
        decreases sets@.len() - i,
    {
        let ghost before = set_items(schema@, sets@.take(i as int));
        let ghost after = set_items(schema@, sets@.take(i as int + 1));
        let ghost item = equation(schema@.columns[sets@[i as int].column as int], (i + 2) as nat);
        assert(after == before.push(item));
        if i > 0 {
            out.append(", ");
            proof { lemma_joined_push(before, ", "@, item); }
        } else {
            assert(after == seq![item]);
        }
        assert(sets@[i as int].column < schema@.columns.len());
        push_equation(out, schema.columns[sets[i].column].name.as_str(), i + 2);
        i = i + 1;
    }
    assert(sets@.take(sets@.len() as int) == sets@);
}

fn push_column_names(out: &mut String, schema: &Schema)
    ensures
        final(out)@ == old(out)@ + joined(column_names(schema@), ", "@),
{
    let ghost start = out@;
    let ghost all = column_names(schema@);
    let mut i: usize = 0;
    while i < schema.columns.len()
        invariant
            i <= schema@.columns.len(),
            all == column_names(schema@),
            out@ == start + joined(all.take(i as int), ", "@),
        decreases schema@.columns.len() - i,
    {
        let ghost before = all.take(i as int);
        let ghost item = quoted(schema@.columns[i as int]);
        assert(all.take(i as int + 1) == before.push(item));
        if i > 0 {
            out.append(", ");
            proof { lemma_joined_push(before, ", "@, item); }
        } else {
            assert(all.take(1) == seq![item]);
        }
        push_quoted(out, schema.columns[i].name.as_str());
        i = i + 1;
    }
    assert(all.take(all.len() as int) == all);
}

fn push_placeholders(out: &mut String, n: usize)
    requires
        n < usize::MAX,
    ensures
        final(out)@ == old(out)@ + joined(placeholders(n as nat), ", "@),
{
    let ghost start = out@;
    let ghost all = placeholders(n as nat);
    let mut i: usize = 0;
    while i < n
        invariant
            i <= n < usize::MAX,
            all == placeholders(n as nat),
            out@ == start + joined(all.take(i as int), ", "@),
        decreases n - i,
    {
        let ghost before = all.take(i as int);
        let ghost item = placeholder((i + 1) as nat);
        assert(all.take(i as int + 1) == before.push(item));
        if i > 0 {
            out.append(", ");
            proof { lemma_joined_push(before, ", "@, item); }
        } else {
            assert(all.take(1) == seq![item]);
        }
        push_placeholder(out, i + 1);
        i = i + 1;
    }
    assert(all.take(all.len() as int) == all);
}

fn filter_values(preds: &Vec<Predicate>, out: &mut Vec<Param>)
    ensures
        final(out)@ == old(out)@ + values_of(preds@),
{
    let ghost start = out@;
    let mut i: usize = 0;
    while i < preds.len()
        invariant
            i <= preds@.len(),
            out@ == start + values_of(preds@.take(i as int)),
        decreases preds@.len() - i,
    {
        assert(values_of(preds@.take(i as int + 1)) == values_of(preds@.take(i as int)).push(
            preds@[i as int].value,
        ));
        out.push(preds[i].value.duplicate());
        i = i + 1;
    }
    assert(preds@.take(preds@.len() as int) == preds@);
}

/// The text of a query on the schema's table, with its bound values.
pub fn render(schema: &Schema, q: &Query) -> (r: Statement)
    requires
        query_fits(schema@, *q),
        bound_values(*q).len() + 3 <= usize::MAX,
    ensures
        r.sql@ == sql_text(schema@, *q),
        r.params@ == bound_values(*q),
{
    let mut sql = String::new();
    let mut params: Vec<Param> = Vec::new();
    match q {
        Query::Count { filters } => {
            sql.append("SELECT COUNT(*) FROM ");
            push_quoted(&mut sql, schema.table.as_str());
            push_where(&mut sql, schema, filters, 1);
            filter_values(filters, &mut params);
        },
        Query::Page { limit, offset, filters } => {
            sql.append("SELECT * FROM ");
            push_quoted(&mut sql, schema.table.as_str());
            push_where(&mut sql, schema, filters, 3);
            sql.append(" ORDER BY \"createdAt\" LIMIT $1 OFFSET $2");
            params.push(Param::BigInt(*limit));
            params.push(Param::BigInt(*offset));
            filter_values(filters, &mut params);
        },
        Query::SelectOne { filters } => {
            sql.append("SELECT * FROM ");
            push_quoted(&mut sql, schema.table.as_str());
            push_where(&mut sql, schema, filters, 1);
            filter_values(filters, &mut params);
        },
        Query::Insert { values } => {
            sql.append("INSERT INTO ");
            push_quoted(&mut sql, schema.table.as_str());
            sql.append(" (");
            push_column_names(&mut sql, schema);
            sql.append(") VALUES (");
            push_placeholders(&mut sql, values.len());
            sql.append(") RETURNING *");
            let mut i: usize = 0;
            while i < values.len()
                invariant
                    i <= values@.len(),
                    params@ == values@.take(i as int),
                decreases values@.len() - i,
            {
                params.push(values[i].duplicate());
                i = i + 1;
            }
        },
        Query::Update { id, sets } => {
            sql.append("UPDATE ");
            push_quoted(&mut sql, schema.table.as_str());
            sql.append(" SET ");
            push_set_items(&mut sql, schema, sets);
            sql.append(", \"updatedAt\" = now() WHERE \"id\" = $1 RETURNING *");
            params.push(Param::Uuid(*id));
            let mut i: usize = 0;
            while i < sets.len()
                invariant
                    i <= sets@.len(),
                    params@ == seq![Param::Uuid(*id)] + assigned_values(sets@.take(i as int)),
                decreases sets@.len() - i,
            {
                assert(assigned_values(sets@.take(i as int + 1)) == assigned_values(
                    sets@.take(i as int),
                ).push(sets@[i as int].value));
                params.push(sets[i].value.duplicate());
                i = i + 1;
            }
            assert(sets@.take(sets@.len() as int) == sets@);
        },
        Query::Delete { id } => {
            sql.append("DELETE FROM ");
            push_quoted(&mut sql, schema.table.as_str());
            sql.append(" WHERE \"id\" = $1 RETURNING *");
            params.push(Param::Uuid(*id));
        },
    }
    Statement { sql, params }
}

} // verus!
