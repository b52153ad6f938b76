//! Construction of the SQL queries that read leaves and blocks, and the decisions of the
//! streams that yield them in chronological order.

use crate::availability::{Commitment, ErrorContext, ErrorEvent, MissingBlockContext, ResourceId};
use crate::query_error::{QueryError, QueryResult};
use vstd::prelude::*;

verus! {

/// One end of a range of block heights.
#[derive(Clone, Copy, Debug, PartialEq, Eq, Structural)]
pub enum RangeBound {
    Included(usize),
    Excluded(usize),
    Unbounded,
}

/// The text of the decimal digit `d`.
pub open spec fn digit_text(d: nat) -> Seq<char> {
    if d == 0 {
        "0"@
    } else if d == 1 {
        "1"@
    } else if d == 2 {
        "2"@
    } else if d == 3 {
        "3"@
    } else if d == 4 {
        "4"@
    } else if d == 5 {
        "5"@
    } else if d == 6 {
        "6"@
    } else if d == 7 {
        "7"@
    } else if d == 8 {
        "8"@
    } else {
        "9"@
    }
}

/// The decimal representation of `n`, without leading zeros.
pub open spec fn decimal(n: nat) -> Seq<char>
    decreases n,
{
    if n < 10 {
        digit_text(n)
    } else {
        decimal(n / 10) + digit_text(n % 10)
    }
}

fn digit_str(d: usize) -> (s: &'static str)
    requires
        d < 10,
    ensures
        s@ == digit_text(d as nat),
{
    if d == 0 {
        "0"
    } else if d == 1 {
        "1"
    } else if d == 2 {
        "2"
    } else if d == 3 {
        "3"
    } else if d == 4 {
        "4"
    } else if d == 5 {
        "5"
    } else if d == 6 {
        "6"
    } else if d == 7 {
        "7"
    } else if d == 8 {
        "8"
    } else {
        "9"
    }
}

fn push_decimal(s: &mut String, n: usize)
    ensures
        final(s)@ == old(s)@ + decimal(n as nat),
    decreases n,
{
    if n < 10 {
        s.append(digit_str(n));
    } else {
        let ghost before = s@;
        push_decimal(s, n / 10);
        s.append(digit_str(n % 10));
        assert(s@ =~= before + (decimal((n / 10) as nat) + digit_text((n % 10) as nat)));
    }
}

/// `parts` joined with `sep` between each two neighbours.
pub open spec fn join(parts: Seq<Seq<char>>, sep: Seq<char>) -> Seq<char>
    decreases parts.len(),
{
    if parts.len() == 0 {
        Seq::empty()
    } else if parts.len() == 1 {
        parts[0]
    } else {
        join(parts.drop_last(), sep) + sep + parts.last()
    }
}

fn join_strings(parts: &Vec<String>, sep: &str) -> (r: String)
    ensures
        r@ == join(parts@.map_values(|p: String| p@), sep@),
{
    let ghost views = parts@.map_values(|p: String| p@);
    let mut r = String::new();
    let mut i: usize = 0;
    while i < parts.len()
        invariant
            i <= parts.len(),
            views == parts@.map_values(|p: String| p@),
            r@ == join(views.take(i as int), sep@),
        decreases parts.len() - i,
    {
        assert(views.take(i + 1).drop_last() =~= views.take(i as int));
        if i != 0 {
            r.append(sep);
        }
        r.append(parts[i].as_str());
        if i == 0 {
            assert(r@ =~= views.take(1)[0]);
        }
        i = i + 1;
    }
    assert(views.take(parts.len() as int) =~= views);
    r
}

/// The query parameter that a bound contributes.
pub open spec fn bound_params(b: RangeBound) -> Seq<i64> {
    match b {
        RangeBound::Included(n) => seq![n as i64],
        RangeBound::Excluded(n) => seq![n as i64],
        RangeBound::Unbounded => Seq::empty(),
    }
}

/// The parameters of the where clause for a range, in the order of their placeholders.
pub open spec fn where_params(start: RangeBound, end: RangeBound) -> Seq<i64> {
    bound_params(start) + bound_params(end)
}

/// The condition that the lower bound imposes on `column`, if any.
pub open spec fn lower_condition(column: Seq<char>, start: RangeBound) -> Seq<Seq<char>> {
    match start {
        RangeBound::Included(_) => seq![column + " >= $"@ + decimal(1)],
        RangeBound::Excluded(_) => seq![column + " > $"@ + decimal(1)],
        RangeBound::Unbounded => Seq::empty(),
    }
}

/// The condition that the upper bound imposes on `column`, whose placeholder is `$index`.
pub open spec fn upper_condition(column: Seq<char>, end: RangeBound, index: nat) -> Seq<Seq<char>> {
    match end {
        RangeBound::Included(_) => seq![column + " <= $"@ + decimal(index)],
        RangeBound::Excluded(_) => seq![column + " < $"@ + decimal(index)],
        RangeBound::Unbounded => Seq::empty(),
    }
}

/// The conditions of the where clause for a range, numbered from `$1`.
pub open spec fn where_conditions(column: Seq<char>, start: RangeBound, end: RangeBound) -> Seq<
    Seq<char>,
> {
    lower_condition(column, start) + upper_condition(
        column,
        end,
        bound_params(start).len() + 1,
    )
}

/// The where clause for a range: empty when the range constrains nothing.
pub open spec fn where_clause(column: Seq<char>, start: RangeBound, end: RangeBound) -> Seq<char> {
    let joined = join(where_conditions(column, start, end), " AND "@);
    if joined.len() == 0 {
        Seq::empty()
    } else {
        " WHERE "@ + joined
    }
}

/// The placeholders of a where clause are `$1`, `$2`, ... in order, one for each parameter: the
/// clause has as many conditions as parameters, and the `i`-th condition (from 0) constrains the
/// column with placeholder `$(i + 1)`.
pub proof fn lemma_placeholders_number_params(column: Seq<char>, start: RangeBound, end: RangeBound)
    ensures
        where_conditions(column, start, end).len() == where_params(start, end).len(),
        forall|i: int|
            0 <= i < where_conditions(column, start, end).len() ==> exists|op: Seq<char>|
                #[trigger] where_conditions(column, start, end)[i] == column + op + decimal(
                    (i + 1) as nat,
                ),
{
    let conds = where_conditions(column, start, end);
    let lower = lower_condition(column, start);
    let upper = upper_condition(column, end, bound_params(start).len() + 1);
    assert forall|i: int| 0 <= i < conds.len() implies exists|op: Seq<char>|
        #[trigger] conds[i] == column + op + decimal((i + 1) as nat) by {
        if i < lower.len() {
            match start {
                RangeBound::Included(_) => assert(conds[i] == column + " >= $"@ + decimal(1)),
                RangeBound::Excluded(_) => assert(conds[i] == column + " > $"@ + decimal(1)),
                RangeBound::Unbounded => {},
            }
        } else {
            assert(conds[i] == upper[i - lower.len()]);
            match end {
                RangeBound::Included(_) => assert(conds[i] == column + " <= $"@ + decimal(
                    (i + 1) as nat,
                )),
                RangeBound::Excluded(_) => assert(conds[i] == column + " < $"@ + decimal(
                    (i + 1) as nat,
                )),
                RangeBound::Unbounded => {},
            }
        }
    }
}

/// A comparison of a column with a query parameter.
#[derive(Clone, Copy, Debug, PartialEq, Eq, Structural)]
pub enum Comparison {
    AtLeast,
    Above,
    AtMost,
    Below,
}

/// The SQL operator of a comparison, followed by the start of its placeholder.
pub open spec fn comparison_text(c: Comparison) -> Seq<char> {
    match c {
        Comparison::AtLeast => " >= $"@,
        Comparison::Above => " > $"@,
        Comparison::AtMost => " <= $"@,
        Comparison::Below => " < $"@,
    }
}

/// Whether a column value `lhs` passes the comparison with the parameter `rhs`.
pub open spec fn comparison_holds(c: Comparison, lhs: int, rhs: int) -> bool {
    match c {
        Comparison::AtLeast => lhs >= rhs,
        Comparison::Above => lhs > rhs,
        Comparison::AtMost => lhs <= rhs,
        Comparison::Below => lhs < rhs,
    }
}

/// The comparisons of the where clause for a range, in the order of their placeholders.
pub open spec fn where_comparisons(start: RangeBound, end: RangeBound) -> Seq<Comparison> {
    let lower = match start {
        RangeBound::Included(_) => seq![Comparison::AtLeast],
        RangeBound::Excluded(_) => seq![Comparison::Above],
        RangeBound::Unbounded => Seq::empty(),
    };
    let upper = match end {
        RangeBound::Included(_) => seq![Comparison::AtMost],
        RangeBound::Excluded(_) => seq![Comparison::Below],
        RangeBound::Unbounded => Seq::empty(),
    };
    lower + upper
}

/// Whether `n` lies in the range between `start` and `end`.
pub open spec fn in_range(start: RangeBound, end: RangeBound, n: int) -> bool {
    &&& match start {
        RangeBound::Included(a) => a <= n,
        RangeBound::Excluded(a) => a < n,
        RangeBound::Unbounded => true,
    }
    &&& match end {
        RangeBound::Included(b) => n <= b,
        RangeBound::Excluded(b) => n < b,
        RangeBound::Unbounded => true,
    }
}

/// Whether a bound is stored unchanged in a query parameter.
pub open spec fn fits_parameter(b: RangeBound) -> bool {
    match b {
        RangeBound::Included(a) => a <= i64::MAX,
        RangeBound::Excluded(a) => a <= i64::MAX,
        RangeBound::Unbounded => true,
    }
}

/// Whether a row whose column holds `n` passes every condition of the where clause for a
/// range, with each placeholder bound to its parameter. An empty clause passes every row.
pub open spec fn where_selects(start: RangeBound, end: RangeBound, n: int) -> bool {
    forall|i: int|
        0 <= i < where_comparisons(start, end).len() ==> comparison_holds(
            #[trigger] where_comparisons(start, end)[i],
            n,
            where_params(start, end)[i] as int,
        )
}

/// The where clause for a range selects exactly the rows whose column lies in the range: its
/// `i`-th condition (from 0) compares the column with placeholder `$(i + 1)` by the `i`-th
/// comparison, the `i`-th parameter is bound to it, the clause is empty exactly when there is
/// no comparison, and for every non-negative column value the comparisons all hold exactly
/// when the value is in the range, provided each bound fits in a query parameter.
pub proof fn lemma_where_clause_selects_range(
    column: Seq<char>,
    start: RangeBound,
    end: RangeBound,
)
    requires
        fits_parameter(start),
        fits_parameter(end),
    ensures
        where_conditions(column, start, end).len() == where_comparisons(start, end).len(),
        where_params(start, end).len() == where_comparisons(start, end).len(),
        forall|i: int|
            0 <= i < where_comparisons(start, end).len() ==> #[trigger] where_conditions(
                column,
                start,
                end,
            )[i] == column + comparison_text(where_comparisons(start, end)[i]) + decimal(
                (i + 1) as nat,
            ),
        (where_clause(column, start, end).len() == 0) == (where_comparisons(start, end).len() == 0),
        forall|n: int| 0 <= n ==> (#[trigger] where_selects(start, end, n) == in_range(start, end, n)),
{
    let conds = where_conditions(column, start, end);
    let comps = where_comparisons(start, end);
    let params = where_params(start, end);
    assert(conds.len() == comps.len());
    assert(params.len() == comps.len());
    assert forall|i: int| 0 <= i < comps.len() implies #[trigger] conds[i] == column
        + comparison_text(comps[i]) + decimal((i + 1) as nat) by {
        let lower_len = bound_params(start).len();
        if i < lower_len {
            assert(conds[i] == lower_condition(column, start)[i]);
        } else {
            assert(conds[i] == upper_condition(column, end, lower_len + 1)[i - lower_len]);
        }
    }
    // Every condition is non-empty, so the joined clause is empty exactly without conditions.
    reveal_strlit("1");
    reveal_strlit("2");
    assert(decimal(1).len() == 1);
    assert(decimal(2).len() == 1);
    if conds.len() > 0 {
        let joined = join(conds, " AND "@);
        let last = conds[conds.len() - 1];
        assert(last == column + comparison_text(comps[conds.len() - 1]) + decimal(
            conds.len() as nat,
        ));
        assert(last.len() >= 1);
        if conds.len() == 1 {
            assert(joined == conds[0]);
        } else {
            assert(joined == join(conds.drop_last(), " AND "@) + " AND "@ + last);
        }
        assert(joined.len() >= 1);
        reveal_strlit(" WHERE ");
        assert(where_clause(column, start, end).len() > 0);
    }
    assert forall|n: int| 0 <= n implies #[trigger] where_selects(start, end, n) == in_range(
        start,
        end,
        n,
    ) by {
        let lower_len = bound_params(start).len();
        match start {
            RangeBound::Included(a) => {
                assert(params[0] as int == a);
                assert(comps[0] == Comparison::AtLeast);
            },
            RangeBound::Excluded(a) => {
                assert(params[0] as int == a);
                assert(comps[0] == Comparison::Above);
            },
            RangeBound::Unbounded => {},
        }
        match end {
            RangeBound::Included(b) => {
                assert(params[lower_len as int] as int == b);
                assert(comps[lower_len as int] == Comparison::AtMost);
            },
            RangeBound::Excluded(b) => {
                assert(params[lower_len as int] as int == b);
                assert(comps[lower_len as int] == Comparison::Below);
            },
            RangeBound::Unbounded => {},
        }
    }
}

proof fn lemma_placeholder_texts()
    ensures
        " >= $"@ + decimal(1) == " >= $1"@,
        " > $"@ + decimal(1) == " > $1"@,
        " <= $"@ + decimal(1) == " <= $1"@,
        " < $"@ + decimal(1) == " < $1"@,
        " <= $"@ + decimal(2) == " <= $2"@,
        " < $"@ + decimal(2) == " < $2"@,
{
    reveal_strlit("1");
    reveal_strlit("2");
    reveal_strlit(" >= $");
    reveal_strlit(" > $");
    reveal_strlit(" <= $");
    reveal_strlit(" < $");
    reveal_strlit(" >= $1");
    reveal_strlit(" > $1");
    reveal_strlit(" <= $1");
    reveal_strlit(" < $1");
    reveal_strlit(" <= $2");
    reveal_strlit(" < $2");
    assert(" >= $"@ + decimal(1) =~= " >= $1"@);
    assert(" > $"@ + decimal(1) =~= " > $1"@);
    assert(" <= $"@ + decimal(1) =~= " <= $1"@);
    assert(" < $"@ + decimal(1) =~= " < $1"@);
    assert(" <= $"@ + decimal(2) =~= " <= $2"@);
    assert(" < $"@ + decimal(2) =~= " < $2"@);
}

/// The where clause for each kind of range, written out: an inclusive lower bound is
/// `column >= $1`, an exclusive one `column > $1`; an inclusive upper bound is `column <= $k`,
/// an exclusive one `column < $k`, where `$k` is the placeholder after the lower bound's; the
/// two conditions are joined with `AND`, and an unbounded range has no clause.
pub proof fn lemma_where_clause_text(column: Seq<char>, start: RangeBound, end: RangeBound)
    ensures
        (start is Unbounded && end is Unbounded) ==> where_clause(column, start, end) == Seq::<char>::empty(),
        (start is Included && end is Unbounded) ==> where_clause(column, start, end) == " WHERE "@ + column + " >= $1"@,
        (start is Excluded && end is Unbounded) ==> where_clause(column, start, end) == " WHERE "@ + column + " > $1"@,
        (start is Unbounded && end is Included) ==> where_clause(column, start, end) == " WHERE "@ + column + " <= $1"@,
        (start is Unbounded && end is Excluded) ==> where_clause(column, start, end) == " WHERE "@ + column + " < $1"@,
        (start is Included && end is Included) ==> where_clause(column, start, end) == " WHERE "@ + column + " >= $1"@ + " AND "@ + column + " <= $2"@,
        (start is Included && end is Excluded) ==> where_clause(column, start, end) == " WHERE "@ + column + " >= $1"@ + " AND "@ + column + " < $2"@,
        (start is Excluded && end is Included) ==> where_clause(column, start, end) == " WHERE "@ + column + " > $1"@ + " AND "@ + column + " <= $2"@,
        (start is Excluded && end is Excluded) ==> where_clause(column, start, end) == " WHERE "@ + column + " > $1"@ + " AND "@ + column + " < $2"@,
{
    lemma_placeholder_texts();
    reveal_strlit(" >= $1");
    reveal_strlit(" > $1");
    reveal_strlit(" <= $1");
    reveal_strlit(" < $1");
    let conds = where_conditions(column, start, end);
    let joined = join(conds, " AND "@);
    if conds.len() == 1 {
        assert(joined == conds[0]);
    } else if conds.len() == 2 {
        assert(join(conds.drop_last(), " AND "@) == conds[0]);
        assert(joined == conds[0] + " AND "@ + conds[1]);
    }
    match start {
        RangeBound::Included(_) => {
            assert(conds[0] =~= column + " >= $1"@);
        },
        RangeBound::Excluded(_) => {
            assert(conds[0] =~= column + " > $1"@);
        },
        RangeBound::Unbounded => {},
    }
    match end {
        RangeBound::Included(_) => {
            if start is Unbounded {
                assert(conds[0] =~= column + " <= $1"@);
            } else {
                assert(conds[1] =~= column + " <= $2"@);
            }
        },
        RangeBound::Excluded(_) => {
            if start is Unbounded {
                assert(conds[0] =~= column + " < $1"@);
            } else {
                assert(conds[1] =~= column + " < $2"@);
            }
        },
        RangeBound::Unbounded => {},
    }
    if conds.len() == 1 {
        assert(where_clause(column, start, end) == " WHERE "@ + conds[0]);
    } else if conds.len() == 2 {
        assert(where_clause(column, start, end) =~= " WHERE "@ + conds[0] + " AND "@ + conds[1]);
    }
}

fn condition(column: &str, op: &str, index: usize) -> (c: String)
    ensures
        c@ == column@ + op@ + decimal(index as nat),
{
    let mut c = column.to_string();
    c.append(op);
    push_decimal(&mut c, index);
    c
}

/// Convert range bounds to a SQL where clause constraining `column`.
///
/// Returns the where clause (empty, or starting with ` WHERE `) and its query parameters. The
/// placeholders of the clause are numbered from `$1`, in the order of the parameters.
pub fn bounds_to_where_clause(start: RangeBound, end: RangeBound, column: &str) -> (r: (
    String,
    Vec<i64>,
))
    ensures
        r.0@ == where_clause(column@, start, end),
        r.1@ == where_params(start, end),
{
    let mut bounds: Vec<String> = Vec::new();
    let mut params: Vec<i64> = Vec::new();
    match start {
        RangeBound::Included(n) => {
            params.push(n as i64);
            bounds.push(condition(column, " >= $", params.len()));
        },
        RangeBound::Excluded(n) => {
            params.push(n as i64);
            bounds.push(condition(column, " > $", params.len()));
        },
        RangeBound::Unbounded => {},
    }
    let ghost lower_views = bounds@.map_values(|p: String| p@);
    assert(lower_views =~= lower_condition(column@, start));
    assert(params@ =~= bound_params(start));
    match end {
        RangeBound::Included(n) => {
            params.push(n as i64);
            bounds.push(condition(column, " <= $", params.len()));
        },
        RangeBound::Excluded(n) => {
            params.push(n as i64);
            bounds.push(condition(column, " < $", params.len()));
        },
        RangeBound::Unbounded => {},
    }
    assert(bounds@.map_values(|p: String| p@) =~= where_conditions(column@, start, end));
    assert(params@ =~= where_params(start, end));
    let joined = join_strings(&bounds, " AND ");
    let mut clause = String::new();
    if !joined.as_str().is_empty() {
        clause.append(" WHERE ");
        clause.append(joined.as_str());
    }
    (clause, params)
}

/// The columns that must be selected to interpret a row as a leaf.
pub const LEAF_COLUMNS: &'static str = "leaf, qc";

/// The columns that must be selected to interpret a row as a block.
pub const BLOCK_COLUMNS: &'static str = "h.hash AS hash, h.height AS height, h.timestamp AS timestamp, p.size AS payload_size, p.data AS payload_data";

/// The single parameter of a lookup query.
#[derive(Clone, Copy, Debug, PartialEq, Eq)]
pub enum QueryParam {
    /// A height, as stored in the database.
    Height(i64),
    /// A hash, which the database stores in its rendered form.
    Hash(Commitment),
}

/// A query that looks up one resource.
#[derive(Clone, Debug, PartialEq, Eq)]
pub struct LookupQuery {
    pub text: String,
    pub param: QueryParam,
}

/// A query that reads a contiguous range of resources.
#[derive(Clone, Debug, PartialEq, Eq)]
pub struct RangeQuery {
    pub text: String,
    pub params: Vec<i64>,
}

/// The parameter with which a resource is looked up.
pub open spec fn lookup_param(id: ResourceId) -> QueryParam {
    match id {
        ResourceId::Number(n) => QueryParam::Height(n as i64),
        ResourceId::Hash(h) => QueryParam::Hash(h),
    }
}

/// The condition under which a leaf matches `id`.
pub open spec fn leaf_lookup_condition(id: ResourceId) -> Seq<char> {
    match id {
        ResourceId::Number(_) => "height = $1"@,
        ResourceId::Hash(_) => "hash = $1"@,
    }
}

/// The condition under which a block matches `id`.
pub open spec fn block_lookup_condition(id: ResourceId) -> Seq<char> {
    match id {
        ResourceId::Number(_) => "h.height = $1"@,
        ResourceId::Hash(_) => "h.hash = $1"@,
    }
}

/// The text of the query that looks up the leaf `id`.
pub open spec fn leaf_lookup_text(id: ResourceId) -> Seq<char> {
    "SELECT "@ + LEAF_COLUMNS@ + " FROM leaf WHERE "@ + leaf_lookup_condition(id)
}

/// The text of the query that reads the leaves in a range, in ascending height.
pub open spec fn leaf_range_text(start: RangeBound, end: RangeBound) -> Seq<char> {
    "SELECT "@ + LEAF_COLUMNS@ + " FROM leaf"@ + where_clause("height"@, start, end)
        + " ORDER BY height ASC"@
}

/// The start of every block query: the block columns of a header joined with its payload.
pub open spec fn block_select() -> Seq<char> {
    "SELECT "@ + BLOCK_COLUMNS@ + "\n              FROM header AS h\n              JOIN payload AS p ON h.height = p.height\n              "@
}

/// The text of the query that looks up the block `id`.
///
/// Ordering by height ensures that of duplicate blocks, the first one is returned.
pub open spec fn block_lookup_text(id: ResourceId) -> Seq<char> {
    block_select() + "WHERE "@ + block_lookup_condition(id)
        + "\n              ORDER BY h.height ASC\n              LIMIT 1"@
}

/// The text of the query that reads the blocks in a range, in ascending height.
pub open spec fn block_range_text(start: RangeBound, end: RangeBound) -> Seq<char> {
    block_select() + where_clause("h.height"@, start, end) + "\n              ORDER BY h.height ASC"@
}

fn lookup_param_of(id: ResourceId) -> (p: QueryParam)
    ensures
        p == lookup_param(id),
{
    match id {
        ResourceId::Number(n) => QueryParam::Height(n as i64),
        ResourceId::Hash(h) => QueryParam::Hash(h),
    }
}

fn block_select_string() -> (s: String)
    ensures
        s@ == block_select(),
{
    let mut s = "SELECT ".to_string();
    s.append(BLOCK_COLUMNS);
    s.append("\n              FROM header AS h\n              JOIN payload AS p ON h.height = p.height\n              ");
    s
}

/// The query that looks up the leaf `id`.
pub fn leaf_lookup_query(id: ResourceId) -> (q: LookupQuery)
    ensures
        q.text@ == leaf_lookup_text(id),
        q.param == lookup_param(id),
{
    let mut text = "SELECT ".to_string();
    text.append(LEAF_COLUMNS);
    text.append(" FROM leaf WHERE ");
    match id {
        ResourceId::Number(_) => text.append("height = $1"),
        ResourceId::Hash(_) => text.append("hash = $1"),
    }
    LookupQuery { text, param: lookup_param_of(id) }
}

/// The query that reads the leaves in a range, in ascending height.
pub fn leaf_range_query(start: RangeBound, end: RangeBound) -> (q: RangeQuery)
    ensures
        q.text@ == leaf_range_text(start, end),
        q.params@ == where_params(start, end),
{
    let (where_clause, params) = bounds_to_where_clause(start, end, "height");
    let mut text = "SELECT ".to_string();
    text.append(LEAF_COLUMNS);
    text.append(" FROM leaf");
    text.append(where_clause.as_str());
    text.append(" ORDER BY height ASC");
    RangeQuery { text, params }
}

/// The query that looks up the block `id`.
pub fn block_lookup_query(id: ResourceId) -> (q: LookupQuery)
    ensures
        q.text@ == block_lookup_text(id),
        q.param == lookup_param(id),
{
    let mut text = block_select_string();
    text.append("WHERE ");
    match id {
        ResourceId::Number(_) => text.append("h.height = $1"),
        ResourceId::Hash(_) => text.append("h.hash = $1"),
    }
    text.append("\n              ORDER BY h.height ASC\n              LIMIT 1");
    LookupQuery { text, param: lookup_param_of(id) }
}

/// The query that reads the blocks in a range, in ascending height.
pub fn block_range_query(start: RangeBound, end: RangeBound) -> (q: RangeQuery)
    ensures
        q.text@ == block_range_text(start, end),
        q.params@ == where_params(start, end),
{
    let (where_clause, params) = bounds_to_where_clause(start, end, "h.height");
    let mut text = block_select_string();
    text.append(where_clause.as_str());
    text.append("\n              ORDER BY h.height ASC");
    RangeQuery { text, params }
}

/// The query for the blocks in a range reads exactly the blocks whose height lies in that very
/// range, in ascending height: its text is the block selection, then the where clause on
/// `h.height` for the range given, then ascending order by height; the `i`-th condition of that
/// clause compares `h.height` with placeholder `$(i + 1)`, bound to the `i`-th parameter of the
/// query; and, where each bound fits in a query parameter, a block of any height passes every
/// condition exactly when its height is in the range.
pub proof fn lemma_block_range_query_reads_range(start: RangeBound, end: RangeBound)
    ensures
        block_range_text(start, end) == block_select() + where_clause("h.height"@, start, end) + "\n              ORDER BY h.height ASC"@,
        where_conditions("h.height"@, start, end).len() == where_params(start, end).len(),
        fits_parameter(start) && fits_parameter(end) ==> forall|i: int| 0 <= i < where_comparisons(start, end).len() ==> #[trigger] where_conditions("h.height"@, start, end)[i] == "h.height"@ + comparison_text(where_comparisons(start, end)[i]) + decimal((i + 1) as nat),
        fits_parameter(start) && fits_parameter(end) ==> forall|n: int| 0 <= n ==> #[trigger] where_selects(start, end, n) == in_range(start, end, n),
{
    lemma_placeholders_number_params("h.height"@, start, end);
    if fits_parameter(start) && fits_parameter(end) {
        lemma_where_clause_selects_range("h.height"@, start, end);
    }
}

/// The query for the leaves in a range reads exactly the leaves whose height lies in that very
/// range, in ascending height: its text is `SELECT leaf, qc FROM leaf`, then the where clause
/// on `height` for the range given, then ascending order by height; the `i`-th condition of
/// that clause compares `height` with placeholder `$(i + 1)`, bound to the `i`-th parameter of
/// the query; and, where each bound fits in a query parameter, a leaf of any height passes
/// every condition exactly when its height is in the range.
pub proof fn lemma_leaf_range_query_reads_range(start: RangeBound, end: RangeBound)
    ensures
        leaf_range_text(start, end) == "SELECT leaf, qc FROM leaf"@ + where_clause("height"@, start, end) + " ORDER BY height ASC"@,
        where_conditions("height"@, start, end).len() == where_params(start, end).len(),
        fits_parameter(start) && fits_parameter(end) ==> forall|i: int| 0 <= i < where_comparisons(start, end).len() ==> #[trigger] where_conditions("height"@, start, end)[i] == "height"@ + comparison_text(where_comparisons(start, end)[i]) + decimal((i + 1) as nat),
        fits_parameter(start) && fits_parameter(end) ==> forall|n: int| 0 <= n ==> #[trigger] where_selects(start, end, n) == in_range(start, end, n),
{
    reveal_strlit("SELECT ");
    reveal_strlit("leaf, qc");
    reveal_strlit(" FROM leaf");
    reveal_strlit("SELECT leaf, qc FROM leaf");
    assert("SELECT "@ + LEAF_COLUMNS@ + " FROM leaf"@ =~= "SELECT leaf, qc FROM leaf"@);
    lemma_placeholders_number_params("height"@, start, end);
    if fits_parameter(start) && fits_parameter(end) {
        lemma_where_clause_selects_range("height"@, start, end);
    }
}

/// Looking up a block, by height or by hash, returns of the blocks that match the one of least
/// height: the query filters on the id, then orders by ascending height and takes one row, the
/// same ordering for either kind of id; the height or the hash is its one parameter.
pub proof fn lemma_block_lookup_takes_lowest(id: ResourceId)
    ensures
        id is Number ==> block_lookup_text(id) == block_select() + "WHERE h.height = $1"@ + "\n              ORDER BY h.height ASC\n              LIMIT 1"@,
        id is Hash ==> block_lookup_text(id) == block_select() + "WHERE h.hash = $1"@ + "\n              ORDER BY h.height ASC\n              LIMIT 1"@,
        id matches ResourceId::Number(n) ==> lookup_param(id) == QueryParam::Height(n as i64),
        id matches ResourceId::Hash(h) ==> lookup_param(id) == QueryParam::Hash(h),
{
    reveal_strlit("WHERE ");
    reveal_strlit("h.height = $1");
    reveal_strlit("h.hash = $1");
    reveal_strlit("WHERE h.height = $1");
    reveal_strlit("WHERE h.hash = $1");
    assert("WHERE "@ + "h.height = $1"@ =~= "WHERE h.height = $1"@);
    assert("WHERE "@ + "h.hash = $1"@ =~= "WHERE h.hash = $1"@);
    assert(block_select() + "WHERE "@ + block_lookup_condition(id) =~= block_select() + ("WHERE "@ + block_lookup_condition(id)));
}

/// Looking up a leaf, by height or by hash, reads the leaf and its certificate from the row
/// whose height or hash is the query's one parameter.
pub proof fn lemma_leaf_lookup_matches_id(id: ResourceId)
    ensures
        id is Number ==> leaf_lookup_text(id) == "SELECT leaf, qc FROM leaf WHERE height = $1"@,
        id is Hash ==> leaf_lookup_text(id) == "SELECT leaf, qc FROM leaf WHERE hash = $1"@,
        id matches ResourceId::Number(n) ==> lookup_param(id) == QueryParam::Height(n as i64),
        id matches ResourceId::Hash(h) ==> lookup_param(id) == QueryParam::Hash(h),
{
    reveal_strlit("SELECT ");
    reveal_strlit("leaf, qc");
    reveal_strlit(" FROM leaf WHERE ");
    reveal_strlit("height = $1");
    reveal_strlit("hash = $1");
    reveal_strlit("SELECT leaf, qc FROM leaf WHERE height = $1");
    reveal_strlit("SELECT leaf, qc FROM leaf WHERE hash = $1");
    assert("SELECT "@ + LEAF_COLUMNS@ + " FROM leaf WHERE "@ + "height = $1"@ =~= "SELECT leaf, qc FROM leaf WHERE height = $1"@);
    assert("SELECT "@ + LEAF_COLUMNS@ + " FROM leaf WHERE "@ + "hash = $1"@ =~= "SELECT leaf, qc FROM leaf WHERE hash = $1"@);
}

/// What a chronological stream of resources does next.
#[derive(Clone, Debug, PartialEq, Eq)]
pub enum StreamStep<T> {
    /// Yield this object, the one at the stream's height before the step.
    Yield(T),
    /// The object at `height` should be in local storage but is missing: retrieve it through
    /// the fetcher, then report it with [`ResourceStream::on_retrieved`].
    Fetch { height: usize },
    /// Reading the object at `height` failed for another reason, perhaps transiently: read it
    /// again and report the outcome with [`ResourceStream::on_available`].
    Retry { height: usize },
    /// Every locally available object has been yielded: wait for the object at `height`, report
    /// it with [`ResourceStream::on_retrieved`], and read the available objects again from
    /// `refresh_from`.
    Wait { height: usize, refresh_from: usize },
}

/// The state of a stream that yields the resources of the chain in chronological order, one
/// height after the other, whether they come from local storage or from an external fetcher.
#[derive(Clone, Copy, Debug, PartialEq, Eq, Structural)]
pub struct ResourceStream {
    height: usize,
}

/// The step a stream at `height` takes on the next outcome of its stream of available objects.
pub open spec fn stream_step<T>(height: usize, item: Option<QueryResult<T>>) -> StreamStep<T> {
    match item {
        Some(Ok(obj)) => StreamStep::Yield(obj),
        Some(Err(QueryError::Missing)) => StreamStep::Fetch { height },
        Some(Err(_)) => StreamStep::Retry { height },
        None => StreamStep::Wait { height, refresh_from: (height + 1) as usize },
    }
}

impl ResourceStream {
    /// The height of the next object to yield.
    pub closed spec fn spec_height(&self) -> usize {
        self.height
    }

    /// A stream that starts at `height`.
    pub fn new(height: usize) -> (s: ResourceStream)
        ensures
            s.spec_height() == height,
    {
        ResourceStream { height }
    }

    /// The height of the next object to yield.
    pub fn height(&self) -> (h: usize)
        ensures
            h == self.spec_height(),
    {
        self.height
    }

    /// Decide what to do with the next outcome of the stream of locally available objects.
    ///
    /// An available object is yielded and the stream moves to the next height; a missing one is
    /// fetched, any other failure is retried, and the end of the available objects is waited
    /// out. Only a yield moves the stream.
    pub fn on_available<T>(&mut self, item: Option<QueryResult<T>>) -> (step: StreamStep<T>)
        requires
            old(self).spec_height() < usize::MAX,
        ensures
            step == stream_step(old(self).spec_height(), item),
            step is Yield ==> final(self).spec_height() == old(self).spec_height() + 1,
            !(step is Yield) ==> final(self).spec_height() == old(self).spec_height(),
            (step is Yield) == yields(StreamInput::Available(item)),
            (step is Yield) == (item matches Some(Ok(_))),
            (step is Fetch) == (item matches Some(Err(QueryError::Missing))),
            (step is Wait) == (item is None),
            step matches StreamStep::Fetch { height } ==> height == old(self).spec_height(),
            step matches StreamStep::Retry { height } ==> height == old(self).spec_height(),
            step matches StreamStep::Wait { height, refresh_from } ==> height == old(self).spec_height() && refresh_from == old(self).spec_height() + 1,
    {
        match item {
            Some(Ok(obj)) => {
                self.height = self.height + 1;
                StreamStep::Yield(obj)
            },
            Some(Err(QueryError::Missing)) => StreamStep::Fetch { height: self.height },
            Some(Err(_)) => StreamStep::Retry { height: self.height },
            None => StreamStep::Wait { height: self.height, refresh_from: self.height + 1 },
        }
    }

    /// The object at the current height was retrieved by fetching or waiting: it is yielded,
    /// and the stream moves to the next height.
    pub fn on_retrieved(&mut self)
        requires
            old(self).spec_height() < usize::MAX,
        ensures
            final(self).spec_height() == old(self).spec_height() + 1,
    {
        self.height = self.height + 1;
    }
}

/// An input to a chronological stream: the next outcome of its stream of available objects, or
/// the object it was fetching or waiting for.
#[derive(Debug)]
pub enum StreamInput<T> {
    Available(Option<QueryResult<T>>),
    Retrieved(T),
}

/// Whether `input` makes a stream yield an object.
pub open spec fn yields<T>(input: StreamInput<T>) -> bool {
    match input {
        StreamInput::Available(Some(Ok(_))) => true,
        StreamInput::Available(_) => false,
        StreamInput::Retrieved(_) => true,
    }
}

/// The heights of the objects that a stream at `height` yields on `inputs`, in order.
pub open spec fn yielded_heights<T>(height: nat, inputs: Seq<StreamInput<T>>) -> Seq<nat>
    decreases inputs.len(),
{
    if inputs.len() == 0 {
        Seq::empty()
    } else if yields(inputs[0]) {
        seq![height] + yielded_heights(height + 1, inputs.drop_first())
    } else {
        yielded_heights(height, inputs.drop_first())
    }
}

/// Streams yield in chronological order: whatever mix of available, missing, failed and awaited
/// objects a stream started at `height` goes through, the objects it yields are those at
/// `height`, `height + 1`, `height + 2`, ... with no height skipped or repeated.
pub proof fn lemma_yields_consecutive_heights<T>(height: nat, inputs: Seq<StreamInput<T>>)
    ensures
        yielded_heights(height, inputs) == Seq::new(
            yielded_heights(height, inputs).len(),
            |i: int| (height + i) as nat,
        ),
    decreases inputs.len(),
{
    if inputs.len() > 0 {
        let rest = inputs.drop_first();
        if yields(inputs[0]) {
            lemma_yields_consecutive_heights(height + 1, rest);
            assert(yielded_heights(height, inputs) =~= Seq::new(
                yielded_heights(height, inputs).len(),
                |i: int| (height + i) as nat,
            ));
        } else {
            lemma_yields_consecutive_heights(height, rest);
        }
    }
}

/// Whether a received object at `received_height` is the one awaited at `height`.
///
/// Objects may be received out of order, so a receiver discards others until this holds.
pub fn is_awaited(received_height: u64, height: usize) -> (r: bool)
    ensures
        r == (received_height == height as u64),
{
    received_height == height as u64
}

/// The query that looks up the header at a height, for the hash and timestamp of its block.
pub const HEADER_QUERY: &'static str = "SELECT hash, timestamp FROM header WHERE height = $1";

/// The outcome of looking up the header of a block that must be fetched.
#[derive(Clone, Copy, Debug, PartialEq, Eq)]
pub enum HeaderLookup {
    /// The header was found: the hash, height and timestamp of its block.
    Found(MissingBlockContext),
    /// The header was found but its stored hash does not parse.
    Malformed,
    /// No header is stored at this height.
    Absent,
    /// The database query failed.
    Failed,
}

/// What a fetch of the missing block at a height does next.
#[derive(Clone, Debug, PartialEq, Eq)]
pub enum BlockFetchStep {
    /// Send `report` on the error stream, so that an attached fetcher retrieves the block, then
    /// wait for the block at `height`, draining the messages about leaves first.
    ReportAndWait { report: ErrorEvent, height: usize },
    /// No header is stored: fetch the leaf at `height`, and continue with the block context it
    /// gives through [`block_fetch_after_leaf`].
    FetchLeaf { height: usize },
    /// Look up the header again: the failure may be transient.
    Retry,
}

/// The report that asks for the block described by `ctx`.
pub open spec fn block_report(ctx: MissingBlockContext) -> ErrorEvent {
    ErrorEvent { error: QueryError::Missing, context: Some(ErrorContext::MissingBlock(ctx)) }
}

/// Decide how a fetch of the missing block at `height` proceeds from the lookup of its header.
///
/// Blocks are always requested by hash, so the hash is needed first: from the stored header, or
/// else from the leaf, which must then be fetched too. Malformed hashes and failed queries are
/// treated as transient database errors and retried, and send nothing.
pub fn block_fetch_step(height: usize, lookup: HeaderLookup) -> (step: BlockFetchStep)
    ensures
        match lookup {
            HeaderLookup::Found(ctx) => step == BlockFetchStep::ReportAndWait {
                report: block_report(ctx),
                height,
            },
            HeaderLookup::Absent => step == BlockFetchStep::FetchLeaf { height },
            _ => step == BlockFetchStep::Retry,
        },
{
    match lookup {
        HeaderLookup::Found(ctx) => BlockFetchStep::ReportAndWait {
            report: ErrorEvent::missing_block(ctx),
            height,
        },
        HeaderLookup::Absent => BlockFetchStep::FetchLeaf { height },
        HeaderLookup::Malformed => BlockFetchStep::Retry,
        HeaderLookup::Failed => BlockFetchStep::Retry,
    }
}

/// Continue a fetch of the missing block at `height` once its leaf was fetched: `ctx` is the
/// block the leaf commits to. The block is reported missing, then awaited.
pub fn block_fetch_after_leaf(height: usize, ctx: MissingBlockContext) -> (step: BlockFetchStep)
    ensures
        step == (BlockFetchStep::ReportAndWait { report: block_report(ctx), height }),
{
    BlockFetchStep::ReportAndWait { report: ErrorEvent::missing_block(ctx), height }
}

} // verus!
