//! The parameterised SQL of the list and partial-update queries. User input
//! only ever travels as a bound value, never inside the SQL text.

use crate::domain::pagination::PageRequest;
use crate::text::{text_option, str_option};
use vstd::prelude::*;

verus! {

/// A value bound to a `?` placeholder.
#[derive(Debug, Clone)]
pub enum SqlValue {
    Text(String),
    Int(i64),
    Null,
}

/// A bound value as plain data.
pub enum SqlValueView {
    Text(Seq<char>),
    Int(i64),
    Null,
}

pub open spec fn value_view(v: SqlValue) -> SqlValueView {
    match v {
        SqlValue::Text(s) => SqlValueView::Text(s@),
        SqlValue::Int(i) => SqlValueView::Int(i),
        SqlValue::Null => SqlValueView::Null,
    }
}

pub open spec fn values_view(vs: Seq<SqlValue>) -> Seq<SqlValueView> {
    vs.map_values(|v: SqlValue| value_view(v))
}

/// SQL text with its bound values, in placeholder order.
#[derive(Debug, Clone)]
pub struct Query {
    pub sql: String,
    pub binds: Vec<SqlValue>,
}

/// The two queries of a list page: the count of all matching rows, and the
/// rows of the requested page.
#[derive(Debug, Clone)]
pub struct ListQueries {
    pub count: Query,
    pub page: Query,
}

/// The `LIKE` tests of a search over one or two columns.
pub open spec fn like_terms(first: Seq<char>, second: Option<Seq<char>>) -> Seq<char> {
    first + " LIKE ?"@ + match second {
        Some(c) => " OR "@ + c + " LIKE ?"@,
        None => Seq::empty(),
    }
}

/// The filter shared by the count and the page: active rows only when asked,
/// and, with a search term, a match on any of the search columns.
pub open spec fn filter_clause(
    active_only: bool,
    search: Option<Seq<char>>,
    first: Seq<char>,
    second: Option<Seq<char>>,
) -> Seq<char> {
    let active = if active_only {
        " WHERE is_active = 1"@
    } else {
        Seq::empty()
    };
    match search {
        None => active,
        Some(_) => active + (if active_only {
            " AND ("@
        } else {
            " WHERE ("@
        }) + like_terms(first, second) + ")"@,
    }
}

/// The count query over `table` with `filter`.
pub open spec fn count_sql(table: Seq<char>, filter: Seq<char>) -> Seq<char> {
    "SELECT COUNT(*) FROM "@ + table + filter
}

/// The page query selecting `columns` from `table` with `filter`, by id.
pub open spec fn page_sql(columns: Seq<char>, table: Seq<char>, filter: Seq<char>) -> Seq<char> {
    "SELECT "@ + columns + " FROM "@ + table + filter + " ORDER BY id ASC LIMIT ? OFFSET ?"@
}

/// The filter of `req` over the search columns `first` and `second`.
pub open spec fn req_filter(req: PageRequest, first: Seq<char>, second: Option<Seq<char>>) -> Seq<
    char,
> {
    filter_clause(req.active_only, text_option(req.search), first, second)
}

/// The values bound by the page query: the filter's, then limit and offset.
pub open spec fn page_binds(req: PageRequest, second: Option<Seq<char>>) -> Seq<SqlValueView> {
    filter_binds(text_option(req.search), second) + seq![
        SqlValueView::Int(req.per_page as i64),
        SqlValueView::Int(((req.page - 1) * req.per_page) as i64),
    ]
}

/// The values bound by the filter: the pattern `%term%` once per column.
pub open spec fn filter_binds(search: Option<Seq<char>>, second: Option<Seq<char>>) -> Seq<
    SqlValueView,
> {
    match search {
        None => Seq::empty(),
        Some(s) => {
            let pattern = SqlValueView::Text("%"@ + s + "%"@);
            if second is Some {
                seq![pattern, pattern]
            } else {
                seq![pattern]
            }
        },
    }
}

/// The SQL text never holds the search term: requests that differ only in
/// the text of their search term get the same SQL, and the term reaches the
/// database only as the bound pattern `%term%`, once per search column.
pub proof fn lemma_search_term_only_bound(
    active_only: bool,
    s1: Seq<char>,
    s2: Seq<char>,
    first: Seq<char>,
    second: Option<Seq<char>>,
)
    ensures
        filter_clause(active_only, Some(s1), first, second) == filter_clause(
            active_only,
            Some(s2),
            first,
            second,
        ),
        forall|i: int|
            0 <= i < filter_binds(Some(s1), second).len() ==> #[trigger] filter_binds(
                Some(s1),
                second,
            )[i] == SqlValueView::Text("%"@ + s1 + "%"@),
{
}

fn push_like_terms(sql: &mut String, binds: &mut Vec<SqlValue>, term: &str, first: &str, second: Option<&str>)
    ensures
        final(sql)@ == old(sql)@ + like_terms(first@, str_option(second)),
        values_view(final(binds)@) == values_view(old(binds)@) + filter_binds(
            Some(term@),
            str_option(second),
        ),
{
    let mut pattern = String::from_str("%");
    pattern.append(term);
    pattern.append("%");
    sql.append(first);
    sql.append(" LIKE ?");
    binds.push(SqlValue::Text(pattern.clone()));
    match second {
        Some(c) => {
            sql.append(" OR ");
            sql.append(c);
            sql.append(" LIKE ?");
            binds.push(SqlValue::Text(pattern));
        },
        None => {},
    }
    proof {
        assert(values_view(binds@) =~= values_view(old(binds)@) + filter_binds(
            Some(term@),
            str_option(second),
        ));
        assert(sql@ =~= old(sql)@ + like_terms(first@, str_option(second)));
    }
}

fn push_filters(sql: &mut String, binds: &mut Vec<SqlValue>, req: &PageRequest, first: &str, second: Option<&str>)
    ensures
        final(sql)@ == old(sql)@ + filter_clause(
            req.active_only,
            text_option(req.search),
            first@,
            str_option(second),
        ),
        values_view(final(binds)@) == values_view(old(binds)@) + filter_binds(
            text_option(req.search),
            str_option(second),
        ),
{
    if req.active_only {
        sql.append(" WHERE is_active = 1");
    } else {
        assert(sql@ + Seq::<char>::empty() =~= sql@);
    }
    match &req.search {
        Some(term) => {
            if req.active_only {
                sql.append(" AND (");
            } else {
                sql.append(" WHERE (");
            }
            push_like_terms(sql, binds, term.as_str(), first, second);
            sql.append(")");
            proof {
                assert(sql@ =~= old(sql)@ + filter_clause(
                    req.active_only,
                    text_option(req.search),
                    first@,
                    str_option(second),
                ));
            }
        },
        None => {
            assert(values_view(binds@) =~= values_view(old(binds)@) + Seq::<SqlValueView>::empty());
        },
    }
}

/// The count and page queries for listing `table` (selecting `columns`),
/// searching `first` and optionally `second` with `LIKE`, ordered by id.
pub fn list_queries(table: &str, columns: &str, first: &str, second: Option<&str>, req: &PageRequest) -> (r:
    ListQueries)
    requires
        (req.page - 1) * req.per_page <= i64::MAX,
    ensures
        r.count.sql@ == count_sql(table@, req_filter(*req, first@, str_option(second))),
        values_view(r.count.binds@) == filter_binds(text_option(req.search), str_option(second)),
        r.page.sql@ == page_sql(columns@, table@, req_filter(*req, first@, str_option(second))),
        values_view(r.page.binds@) == page_binds(*req, str_option(second)),
{
    let mut count_sql = String::from_str("SELECT COUNT(*) FROM ");
    count_sql.append(table);
    let mut count_binds: Vec<SqlValue> = Vec::new();
    assert(values_view(count_binds@) =~= Seq::<SqlValueView>::empty());
    push_filters(&mut count_sql, &mut count_binds, req, first, second);

    let mut page_sql = String::from_str("SELECT ");
    page_sql.append(columns);
    page_sql.append(" FROM ");
    page_sql.append(table);
    let mut page_binds: Vec<SqlValue> = Vec::new();
    assert(values_view(page_binds@) =~= Seq::<SqlValueView>::empty());
    push_filters(&mut page_sql, &mut page_binds, req, first, second);
    page_sql.append(" ORDER BY id ASC LIMIT ? OFFSET ?");
    let ghost before = page_binds@;
    page_binds.push(SqlValue::Int(req.limit()));
    page_binds.push(SqlValue::Int(req.offset()));
    proof {
        assert(values_view(page_binds@) =~= values_view(before) + seq![
            SqlValueView::Int(req.per_page as i64),
            SqlValueView::Int(((req.page - 1) * req.per_page) as i64),
        ]);
    }
    ListQueries {
        count: Query { sql: count_sql, binds: count_binds },
        page: Query { sql: page_sql, binds: page_binds },
    }
}

/// The assignment `, column = ?` of one changed field, if it changes.
pub open spec fn set_clause(field: Option<(Seq<char>, SqlValueView)>) -> Seq<char> {
    match field {
        Some((c, _)) => ", "@ + c + " = ?"@,
        None => Seq::empty(),
    }
}

/// The value bound for one changed field, if it changes.
pub open spec fn set_binds(field: Option<(Seq<char>, SqlValueView)>) -> Seq<SqlValueView> {
    match field {
        Some((_, v)) => seq![v],
        None => Seq::empty(),
    }
}

pub open spec fn field_view(field: Option<(&str, SqlValue)>) -> Option<(Seq<char>, SqlValueView)> {
    match field {
        Some((c, v)) => Some((c@, value_view(v))),
        None => None,
    }
}

fn push_set(sql: &mut String, binds: &mut Vec<SqlValue>, field: Option<(&str, SqlValue)>)
    ensures
        final(sql)@ == old(sql)@ + set_clause(field_view(field)),
        values_view(final(binds)@) == values_view(old(binds)@) + set_binds(field_view(field)),
{
    match field {
        Some((c, v)) => {
            sql.append(", ");
            sql.append(c);
            sql.append(" = ?");
            binds.push(v);
            proof {
                assert(values_view(binds@) =~= values_view(old(binds)@) + set_binds(
                    field_view(field),
                ));
            }
        },
        None => {
            assert(sql@ + Seq::<char>::empty() =~= sql@);
            assert(values_view(binds@) + Seq::<SqlValueView>::empty() =~= values_view(binds@));
        },
    }
}

/// A partial update of row `id` in `table`: the update time is always
/// refreshed, and only the given fields change; the row comes back with
/// `columns`.
pub fn partial_update(
    table: &str,
    columns: &str,
    first: Option<(&str, SqlValue)>,
    second: Option<(&str, SqlValue)>,
    id: i64,
) -> (r: Query)
    ensures
        r.sql@ == "UPDATE "@ + table@ + " SET updated_at = datetime('now')"@ + set_clause(
            field_view(first),
        ) + set_clause(field_view(second)) + " WHERE id = ?"@ + " RETURNING "@ + columns@,
        values_view(r.binds@) == set_binds(field_view(first)) + set_binds(field_view(second))
            + seq![SqlValueView::Int(id)],
{
    let mut sql = String::from_str("UPDATE ");
    sql.append(table);
    sql.append(" SET updated_at = datetime('now')");
    let mut binds: Vec<SqlValue> = Vec::new();
    assert(values_view(binds@) =~= Seq::<SqlValueView>::empty());
    push_set(&mut sql, &mut binds, first);
    push_set(&mut sql, &mut binds, second);
    sql.append(" WHERE id = ?");
    sql.append(" RETURNING ");
    sql.append(columns);
    let ghost before = binds@;
    binds.push(SqlValue::Int(id));
    proof {
        assert(values_view(binds@) =~= values_view(before) + seq![SqlValueView::Int(id)]);
        assert(values_view(binds@) =~= set_binds(field_view(first)) + set_binds(
            field_view(second),
        ) + seq![SqlValueView::Int(id)]);
    }
    Query { sql, binds }
}

} // verus!
