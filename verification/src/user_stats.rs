//! The user-statistics service: the SQL text that a structured query
//! becomes, and the message of a failed fetch.

use vstd::prelude::*;

use crate::text::{
    all_digits, bracketed, decimal, decimal_reads_back, decimal_value, join, lemma_join_push,
    push_decimal,
};
use crate::time::{renders, rfc3339_text, ts_to_rfc3339, Timestamp};

verus! {

/// A range condition on one timestamp column; either bound may be absent.
#[derive(Clone, Copy, Debug)]
pub struct TimeQuery {
    pub lower: Option<Timestamp>,
    pub upper: Option<Timestamp>,
}

/// A condition on one array column: it must hold all of `ids`.
#[derive(Clone, Debug)]
pub struct IdQuery {
    pub ids: Vec<u32>,
}

/// A structured query: time conditions and id conditions keyed by column
/// name, and an optional row limit.
#[derive(Clone, Debug)]
pub struct QueryRequest {
    pub timestamps: Vec<(String, TimeQuery)>,
    pub ids: Vec<(String, IdQuery)>,
    pub limit: Option<u32>,
}

/// No column name occurs twice among the entries.
pub open spec fn distinct_names<T>(entries: Seq<(String, T)>) -> bool {
    forall|i: int, j: int|
        0 <= i < j < entries.len() ==> (#[trigger] entries[i]).0@ != (#[trigger] entries[j]).0@
}

impl QueryRequest {
    /// Each column has at most one time condition and at most one id
    /// condition, as when they are keyed by column name.
    pub open spec fn well_formed(self) -> bool {
        distinct_names(self.timestamps@) && distinct_names(self.ids@)
    }

    /// Whether each column has at most one condition of each kind.
    pub fn has_distinct_columns(&self) -> (ok: bool)
        ensures
            ok == self.well_formed(),
    {
        names_distinct(&self.timestamps) && names_distinct(&self.ids)
    }
}

fn names_distinct<T>(entries: &Vec<(String, T)>) -> (ok: bool)
    ensures
        ok == distinct_names(entries@),
{
    let mut j: usize = 0;
    while j < entries.len()
        invariant
            0 <= j <= entries@.len(),
            forall|a: int, b: int|
                0 <= a < b < j ==> (#[trigger] entries@[a]).0@ != (#[trigger] entries@[b]).0@,
        decreases entries@.len() - j,
    {
        let mut i: usize = 0;
        while i < j
            invariant
                0 <= i <= j < entries@.len(),
                forall|a: int| 0 <= a < i ==> (#[trigger] entries@[a]).0@ != entries@[j as int].0@,
            decreases j - i,
        {
            if entries[i].0 == entries[j].0 {
                assert(entries@[i as int].0@ == entries@[j as int].0@);
                return false;
            }
            i = i + 1;
        }
        j = j + 1;
    }
    true
}

/// A query given as SQL text.
#[derive(Clone, Debug)]
pub struct RawQueryRequest {
    pub query: String,
}

/// The bound is absent, or chrono accepts it.
pub open spec fn bound_renders(bound: Option<Timestamp>) -> bool {
    match bound {
        Some(t) => renders(t),
        None => true,
    }
}

/// The SQL condition on column `name` for the bounds `lower` and `upper`.
pub open spec fn timestamp_condition(
    name: Seq<char>,
    lower: Option<Timestamp>,
    upper: Option<Timestamp>,
) -> Seq<char> {
    match (lower, upper) {
        (None, None) => "TRUE"@,
        (None, Some(u)) => name + " <= '"@ + rfc3339_text(u) + "'"@,
        (Some(l), None) => name + " >= '"@ + rfc3339_text(l) + "'"@,
        (Some(l), Some(u)) => name + " BETWEEN '"@ + rfc3339_text(u) + "' AND '"@ + rfc3339_text(l)
            + "'"@,
    }
}

/// The SQL condition that array column `name` holds all of `ids`.
pub open spec fn ids_condition(name: Seq<char>, ids: Seq<u32>) -> Seq<char> {
    if ids.len() == 0 {
        "TRUE"@
    } else {
        "array"@ + bracketed(ids.map_values(|id: u32| decimal(id as nat))) + " <@ "@ + name
    }
}

/// The time conditions of a query, in order.
pub open spec fn time_conditions(entries: Seq<(String, TimeQuery)>) -> Seq<Seq<char>> {
    entries.map_values(|e: (String, TimeQuery)| timestamp_condition(e.0@, e.1.lower, e.1.upper))
}

/// The id conditions of a query, in order.
pub open spec fn id_conditions(entries: Seq<(String, IdQuery)>) -> Seq<Seq<char>> {
    entries.map_values(|e: (String, IdQuery)| ids_condition(e.0@, e.1.ids@))
}

/// Every bound of every time condition is absent or accepted by chrono.
pub open spec fn all_bounds_render(entries: Seq<(String, TimeQuery)>) -> bool {
    forall|i: int|
        0 <= i < entries.len() ==> bound_renders(#[trigger] entries[i].1.lower) && bound_renders(
            entries[i].1.upper,
        )
}

/// The `LIMIT` clause, if any.
pub open spec fn limit_clause(limit: Option<u32>) -> Seq<char> {
    match limit {
        Some(l) => " LIMIT "@ + decimal(l as nat),
        None => Seq::empty(),
    }
}

/// The SQL text of a structured query: the time conditions joined by
/// `" AND "`, directly followed by the id conditions joined by `" AND "`,
/// then the limit.
pub open spec fn query_text(q: QueryRequest) -> Seq<char> {
    "SELECT email, name FROM user_stats WHERE "@ + join(time_conditions(q.timestamps@), " AND "@)
        + join(id_conditions(q.ids@), " AND "@) + limit_clause(q.limit)
}

/// A condition with a bound names its column first, then quotes each bound
/// as exactly its RFC 3339 text: ` <= '` and the upper bound, ` >= '` and
/// the lower bound, or ` BETWEEN '`, the upper bound, `' AND '` and the
/// lower bound; a condition without bounds is `TRUE`.
pub proof fn condition_quotes_its_bounds(
    name: Seq<char>,
    lower: Option<Timestamp>,
    upper: Option<Timestamp>,
)
    ensures
        ({
            let c = timestamp_condition(name, lower, upper);
            let n = name.len() as int;
            match (lower, upper) {
                (None, None) => c == seq!['T', 'R', 'U', 'E'],
                (None, Some(u)) => {
                    let t = rfc3339_text(u);
                    &&& c.len() == n + 5 + t.len() + 1
                    &&& c.subrange(0, n) == name
                    &&& c.subrange(n, n + 5) == seq![' ', '<', '=', ' ', '\'']
                    &&& c.subrange(n + 5, n + 5 + t.len()) == t
                    &&& c.last() == '\''
                },
                (Some(l), None) => {
                    let t = rfc3339_text(l);
                    &&& c.len() == n + 5 + t.len() + 1
                    &&& c.subrange(0, n) == name
                    &&& c.subrange(n, n + 5) == seq![' ', '>', '=', ' ', '\'']
                    &&& c.subrange(n + 5, n + 5 + t.len()) == t
                    &&& c.last() == '\''
                },
                (Some(l), Some(u)) => {
                    let tu = rfc3339_text(u);
                    let tl = rfc3339_text(l);
                    let at = n + 10 + tu.len();
                    &&& c.len() == at + 7 + tl.len() + 1
                    &&& c.subrange(0, n) == name
                    &&& c.subrange(n, n + 10) == seq![' ', 'B', 'E', 'T', 'W', 'E', 'E', 'N', ' ', '\'']
                    &&& c.subrange(n + 10, at) == tu
                    &&& c.subrange(at, at + 7) == seq!['\'', ' ', 'A', 'N', 'D', ' ', '\'']
                    &&& c.subrange(at + 7, at + 7 + tl.len()) == tl
                    &&& c.last() == '\''
                },
            }
        }),
{
    reveal_strlit("TRUE");
    reveal_strlit(" <= '");
    reveal_strlit(" >= '");
    reveal_strlit(" BETWEEN '");
    reveal_strlit("' AND '");
    reveal_strlit("'");
    let c = timestamp_condition(name, lower, upper);
    let n = name.len() as int;
    match (lower, upper) {
        (None, None) => {
            assert(c =~= seq!['T', 'R', 'U', 'E']);
        },
        (None, Some(u)) => {
            let t = rfc3339_text(u);
            assert(c.subrange(0, n) =~= name);
            assert(c.subrange(n, n + 5) =~= seq![' ', '<', '=', ' ', '\'']);
            assert(c.subrange(n + 5, n + 5 + t.len()) =~= t);
        },
        (Some(l), None) => {
            let t = rfc3339_text(l);
            assert(c.subrange(0, n) =~= name);
            assert(c.subrange(n, n + 5) =~= seq![' ', '>', '=', ' ', '\'']);
            assert(c.subrange(n + 5, n + 5 + t.len()) =~= t);
        },
        (Some(l), Some(u)) => {
            let tu = rfc3339_text(u);
            let tl = rfc3339_text(l);
            let at = n + 10 + tu.len();
            assert(c.subrange(0, n) =~= name);
            assert(c.subrange(n, n + 10) =~= seq![' ', 'B', 'E', 'T', 'W', 'E', 'E', 'N', ' ', '\'']);
            assert(c.subrange(n + 10, at) =~= tu);
            assert(c.subrange(at, at + 7) =~= seq!['\'', ' ', 'A', 'N', 'D', ' ', '\'']);
            assert(c.subrange(at + 7, at + 7 + tl.len()) =~= tl);
        },
    }
}

/// Each time condition of a query stands at its entry's place and names
/// its entry's own column with that entry's bounds.
pub proof fn time_conditions_follow_their_entries(entries: Seq<(String, TimeQuery)>)
    ensures
        time_conditions(entries).len() == entries.len(),
        forall|i: int|
            0 <= i < entries.len() ==> #[trigger] time_conditions(entries)[i] == timestamp_condition(
                entries[i].0@,
                entries[i].1.lower,
                entries[i].1.upper,
            ),
        forall|i: int|
            0 <= i < entries.len() && (entries[i].1.lower is Some || entries[i].1.upper is Some)
                ==> (#[trigger] time_conditions(entries)[i]).subrange(0, entries[i].0@.len() as int)
                == entries[i].0@,
{
    assert forall|i: int|
        0 <= i < entries.len() && (entries[i].1.lower is Some || entries[i].1.upper is Some)
            implies (#[trigger] time_conditions(entries)[i]).subrange(
        0,
        entries[i].0@.len() as int,
    ) == entries[i].0@ by {
        condition_quotes_its_bounds(entries[i].0@, entries[i].1.lower, entries[i].1.upper);
    }
}

/// An id condition lists every id once and in order, each as digits that
/// read back as that id, separated by `, ` inside `array[..]`, and then
/// tests the column it was asked for: ` <@ ` and the column's name. With no
/// ids the condition is `TRUE`.
pub proof fn ids_condition_lists_its_ids(name: Seq<char>, ids: Seq<u32>)
    ensures
        ids.len() == 0 ==> ids_condition(name, ids) == seq!['T', 'R', 'U', 'E'],
        ids.len() > 0 ==> exists|items: Seq<Seq<char>>|
            {
                &&& items.len() == ids.len()
                &&& forall|i: int|
                    0 <= i < ids.len() ==> all_digits(#[trigger] items[i]) && decimal_value(
                        items[i],
                    ) == ids[i]
                &&& ids_condition(name, ids) == seq!['a', 'r', 'r', 'a', 'y', '['] + join(
                    items,
                    seq![',', ' '],
                ) + seq![']', ' ', '<', '@', ' '] + name
            },
{
    reveal_strlit("TRUE");
    reveal_strlit("array");
    reveal_strlit(" <@ ");
    reveal_strlit(", ");
    if ids.len() == 0 {
        assert(ids_condition(name, ids) =~= seq!['T', 'R', 'U', 'E']);
    } else {
        let items = ids.map_values(|id: u32| decimal(id as nat));
        assert forall|i: int| 0 <= i < ids.len() implies all_digits(#[trigger] items[i])
            && decimal_value(items[i]) == ids[i] by {
            decimal_reads_back(ids[i] as nat);
        }
        assert(", "@ =~= seq![',', ' ']);
        assert(ids_condition(name, ids) =~= seq!['a', 'r', 'r', 'a', 'y', '['] + join(
            items,
            seq![',', ' '],
        ) + seq![']', ' ', '<', '@', ' '] + name);
    }
}

/// Each id condition of a query stands at its entry's place and tests its
/// entry's own column for that entry's ids.
pub proof fn id_conditions_follow_their_entries(entries: Seq<(String, IdQuery)>)
    ensures
        id_conditions(entries).len() == entries.len(),
        forall|i: int|
            0 <= i < entries.len() ==> #[trigger] id_conditions(entries)[i] == ids_condition(
                entries[i].0@,
                entries[i].1.ids@,
            ),
        forall|i: int|
            0 <= i < entries.len() && entries[i].1.ids@.len() > 0 ==> {
                let c = #[trigger] id_conditions(entries)[i];
                let n = entries[i].0@;
                c.subrange(c.len() - n.len(), c.len() as int) == n
            },
{
    assert forall|i: int| 0 <= i < entries.len() && entries[i].1.ids@.len() > 0 implies {
        let c = #[trigger] id_conditions(entries)[i];
        let n = entries[i].0@;
        c.subrange(c.len() - n.len(), c.len() as int) == n
    } by {
        let c = id_conditions(entries)[i];
        let n = entries[i].0@;
        assert(c =~= ("array"@ + bracketed(entries[i].1.ids@.map_values(|id: u32| decimal(id as nat)))
            + " <@ "@) + n);
        assert(c.subrange(c.len() - n.len(), c.len() as int) =~= n);
    }
}

/// The same query without its limit.
pub open spec fn without_limit(q: QueryRequest) -> QueryRequest {
    QueryRequest { timestamps: q.timestamps, ids: q.ids, limit: None }
}

/// A limit is written whole: the query text is that of the query without
/// a limit, then ` LIMIT ` and digits whose value is the limit.
pub proof fn limit_is_written_whole(q: QueryRequest)
    ensures
        q.limit matches Some(l) ==> exists|digits: Seq<char>|
            #[trigger] decimal_value(digits) == l && all_digits(digits) && query_text(q)
                == query_text(without_limit(q)) + seq![' ', 'L', 'I', 'M', 'I', 'T', ' '] + digits,
        q.limit is None ==> query_text(q) == query_text(without_limit(q)),
{
    reveal_strlit(" LIMIT ");
    match q.limit {
        Some(l) => {
            decimal_reads_back(l as nat);
            let digits = decimal(l as nat);
            assert(query_text(q) =~= query_text(without_limit(q)) + seq![
                ' ',
                'L',
                'I',
                'M',
                'I',
                'T',
                ' ',
            ] + digits);
            assert(decimal_value(digits) == l);
        },
        None => {
            assert(query_text(q) =~= query_text(without_limit(q)));
        },
    }
}

/// The SQL condition for a timestamp column. A bound that chrono rejects
/// cannot be written, so both bounds must render.
pub fn timestamp_query(name: &str, lower: Option<Timestamp>, upper: Option<Timestamp>) -> (res:
    String)
    requires
        bound_renders(lower),
        bound_renders(upper),
    ensures
        res@ == timestamp_condition(name@, lower, upper),
{
    match (lower, upper) {
        (None, None) => String::from_str("TRUE"),
        (None, Some(u)) => {
            let upper_text = ts_to_rfc3339(u).unwrap();
            let mut res = String::from_str(name);
            res.append(" <= '");
            res.append(upper_text.as_str());
            res.append("'");
            res
        },
        (Some(l), None) => {
            let lower_text = ts_to_rfc3339(l).unwrap();
            let mut res = String::from_str(name);
            res.append(" >= '");
            res.append(lower_text.as_str());
            res.append("'");
            res
        },
        (Some(l), Some(u)) => {
            let upper_text = ts_to_rfc3339(u).unwrap();
            let lower_text = ts_to_rfc3339(l).unwrap();
            let mut res = String::from_str(name);
            res.append(" BETWEEN '");
            res.append(upper_text.as_str());
            res.append("' AND '");
            res.append(lower_text.as_str());
            res.append("'");
            res
        },
    }
}

/// The bound is absent, or chrono accepts it.
fn bound_ok(bound: Option<Timestamp>) -> (ok: bool)
    ensures
        ok == bound_renders(bound),
{
    match bound {
        Some(t) => ts_to_rfc3339(t).is_some(),
        None => true,
    }
}

/// The SQL condition for a timestamp column, or `None` where chrono
/// rejects a bound.
pub fn try_timestamp_query(name: &str, lower: Option<Timestamp>, upper: Option<Timestamp>) -> (res:
    Option<String>)
    ensures
        res is Some <==> bound_renders(lower) && bound_renders(upper),
        res matches Some(text) ==> text@ == timestamp_condition(name@, lower, upper),
{
    if bound_ok(lower) && bound_ok(upper) {
        Some(timestamp_query(name, lower, upper))
    } else {
        None
    }
}

/// The SQL condition that array column `name` holds all of `ids`
/// (`TRUE` when there are none).
pub fn ids_query(name: &str, ids: Vec<u32>) -> (res: String)
    ensures
        res@ == ids_condition(name@, ids@),
{
    if ids.len() == 0 {
        return String::from_str("TRUE");
    }
    let ghost items = ids@.map_values(|id: u32| decimal(id as nat));
    let mut list = String::new();
    let mut i: usize = 0;
    while i < ids.len()
        invariant
            0 <= i <= ids.len(),
            items == ids@.map_values(|id: u32| decimal(id as nat)),
            list@ == join(items.take(i as int), seq![',', ' ']),
        decreases ids.len() - i,
    {
        let ghost before = list@;
        if i > 0 {
            proof { reveal_strlit(", "); }
            list.append(", ");
        }
        push_decimal(&mut list, ids[i] as u64);
        proof {
            lemma_join_push(items.take(i as int), seq![',', ' '], items[i as int]);
            assert(items.take(i as int).push(items[i as int]) =~= items.take(i + 1));
            assert(list@ =~= join(items.take(i + 1), seq![',', ' ']));
        }
        i = i + 1;
    }
    assert(items.take(ids.len() as int) =~= items);
    let mut res = String::from_str("array");
    proof {
        reveal_strlit("[");
        reveal_strlit("]");
    }
    res.append("[");
    res.append(list.as_str());
    res.append("]");
    res.append(" <@ ");
    res.append(name);
    assert(res@ =~= ids_condition(name@, ids@));
    res
}

/// Appends the conditions joined by `" AND "` (time conditions).
fn push_time_conditions(sql: &mut String, entries: &Vec<(String, TimeQuery)>)
    requires
        all_bounds_render(entries@),
    ensures
        final(sql)@ == old(sql)@ + join(time_conditions(entries@), " AND "@),
{
    let ghost start = old(sql)@;
    let ghost items = time_conditions(entries@);
    let mut i: usize = 0;
    while i < entries.len()
        invariant
            0 <= i <= entries.len(),
            all_bounds_render(entries@),
            items == time_conditions(entries@),
            sql@ == start + join(items.take(i as int), " AND "@),
        decreases entries.len() - i,
    {
        let entry = &entries[i];
        assert(bound_renders(entries@[i as int].1.lower));
        let cond = timestamp_query(entry.0.as_str(), entry.1.lower, entry.1.upper);
        if i > 0 {
            sql.append(" AND ");
        }
        sql.append(cond.as_str());
        proof {
            lemma_join_push(items.take(i as int), " AND "@, items[i as int]);
            assert(items.take(i as int).push(items[i as int]) =~= items.take(i + 1));
            assert(sql@ =~= start + join(items.take(i + 1), " AND "@));
        }
        i = i + 1;
    }
    assert(items.take(entries.len() as int) =~= items);
}

/// Appends the conditions joined by `" AND "` (id conditions).
fn push_id_conditions(sql: &mut String, entries: &Vec<(String, IdQuery)>)
    ensures
        final(sql)@ == old(sql)@ + join(id_conditions(entries@), " AND "@),
{
    let ghost start = old(sql)@;
    let ghost items = id_conditions(entries@);
    let mut i: usize = 0;
    while i < entries.len()
        invariant
            0 <= i <= entries.len(),
            items == id_conditions(entries@),
            sql@ == start + join(items.take(i as int), " AND "@),
        decreases entries.len() - i,
    {
        let entry = &entries[i];
        let cond = ids_query(entry.0.as_str(), entry.1.ids.clone());
        if i > 0 {
            sql.append(" AND ");
        }
        sql.append(cond.as_str());
        proof {
            lemma_join_push(items.take(i as int), " AND "@, items[i as int]);
            assert(items.take(i as int).push(items[i as int]) =~= items.take(i + 1));
            assert(sql@ =~= start + join(items.take(i + 1), " AND "@));
        }
        i = i + 1;
    }
    assert(items.take(entries.len() as int) =~= items);
}

/// The SQL text that a structured query runs as. A bound that chrono
/// rejects cannot be written, so every bound must render.
pub fn build_query(query: &QueryRequest) -> (sql: String)
    requires
        query.well_formed(),
        all_bounds_render(query.timestamps@),
    ensures
        sql@ == query_text(*query),
{
    let mut sql = String::from_str("SELECT email, name FROM user_stats WHERE ");
    push_time_conditions(&mut sql, &query.timestamps);
    push_id_conditions(&mut sql, &query.ids);
    match query.limit {
        Some(limit) => {
            sql.append(" LIMIT ");
            push_decimal(&mut sql, limit as u64);
        },
        None => {},
    }
    assert(sql@ =~= query_text(*query));
    sql
}

/// The SQL text of a structured query, or `None` where chrono rejects one
/// of its bounds.
pub fn query_sql(query: &QueryRequest) -> (res: Option<RawQueryRequest>)
    requires
        query.well_formed(),
    ensures
        res is Some <==> all_bounds_render(query.timestamps@),
        res matches Some(raw) ==> raw.query@ == query_text(*query),
{
    let mut i: usize = 0;
    while i < query.timestamps.len()
        invariant
            0 <= i <= query.timestamps.len(),
            forall|j: int|
                0 <= j < i ==> bound_renders(#[trigger] query.timestamps@[j].1.lower)
                    && bound_renders(query.timestamps@[j].1.upper),
        decreases query.timestamps.len() - i,
    {
        let bounds = query.timestamps[i].1;
        if !(bound_ok(bounds.lower) && bound_ok(bounds.upper)) {
            return None;
        }
        i = i + 1;
    }
    Some(RawQueryRequest { query: build_query(query) })
}

/// The message of a fetch that failed for the SQL text `query`.
pub fn fetch_error_message(query: &str) -> (msg: String)
    ensures
        msg@ == "failed to fetch data: "@ + query@,
{
    let mut msg = String::from_str("failed to fetch data: ");
    msg.append(query);
    msg
}

} // verus!
