use vstd::prelude::*;

verus! {

/// A value bound to one positional placeholder of a statement.
/// `Real` carries the IEEE-754 bit pattern of a single-precision float.
#[derive(Clone, Debug, PartialEq)]
pub enum SqlParam {
    Text(String),
    Real(u32),
    Int(i32),
}

impl SqlParam {
    /// A copy of this value.
    pub fn duplicate(&self) -> (r: SqlParam)
        ensures
            r == *self,
    {
        match self {
            SqlParam::Text(t) => SqlParam::Text(t.clone()),
            SqlParam::Real(b) => SqlParam::Real(*b),
            SqlParam::Int(n) => SqlParam::Int(*n),
        }
    }
}

/// A parameterized SQL statement: its text, and the values bound to
/// `$1`, `$2`, ... in that order.
#[derive(Clone, Debug, PartialEq)]
pub struct Statement {
    pub sql: String,
    pub params: Vec<SqlParam>,
}

/// One `column = value` assignment of an `UPDATE`.
#[derive(Clone, Debug, PartialEq)]
pub struct Assignment {
    pub column: String,
    pub value: SqlParam,
}

/// The most assignments one `UPDATE` may carry (placeholders stay one digit).
pub const MAX_ASSIGNMENTS: usize = 8;

pub open spec fn digit_char(d: nat) -> char {
    if d == 0 { '0' } else if d == 1 { '1' } else if d == 2 { '2' } else if d == 3 { '3' }
    else if d == 4 { '4' } else if d == 5 { '5' } else if d == 6 { '6' } else if d == 7 { '7' }
    else if d == 8 { '8' } else { '9' }
}

/// The decimal digits of `n`.
pub open spec fn decimal(n: nat) -> Seq<char>
    decreases n,
{
    if n < 10 {
        seq![digit_char(n)]
    } else {
        decimal(n / 10).push(digit_char(n % 10))
    }
}

/// The text of the `i`-th positional placeholder, `$i`.
pub open spec fn placeholder(i: nat) -> Seq<char> {
    seq!['$'] + decimal(i)
}

/// `column = $i`.
pub open spec fn assignment_text(column: Seq<char>, i: nat) -> Seq<char> {
    column + " = "@ + placeholder(i)
}

/// The comma-separated assignments of `columns`, the `k`-th one bound to `$k`.
pub open spec fn set_list(columns: Seq<Seq<char>>) -> Seq<char>
    decreases columns.len(),
{
    if columns.len() == 0 {
        Seq::empty()
    } else if columns.len() == 1 {
        assignment_text(columns[0], 1)
    } else {
        set_list(columns.drop_last()) + ", "@ + assignment_text(columns.last(), columns.len())
    }
}

/// The text of an update of `columns` of `table`, whose row is picked by the
/// id bound to the placeholder that follows the assignments.
pub open spec fn update_sql(table: Seq<char>, columns: Seq<Seq<char>>, returning: Seq<char>) -> Seq<char> {
    "UPDATE "@ + table + " SET "@ + set_list(columns) + " WHERE id = "@ + placeholder(
        columns.len() + 1,
    ) + " RETURNING "@ + returning
}

/// The values that an update binds: the assigned ones in order, then the id.
pub open spec fn update_params(values: Seq<SqlParam>, id: i32) -> Seq<SqlParam> {
    values.push(SqlParam::Int(id))
}

pub open spec fn columns_of(asg: Seq<Assignment>) -> Seq<Seq<char>> {
    asg.map_values(|a: Assignment| a.column@)
}

pub open spec fn values_of(asg: Seq<Assignment>) -> Seq<SqlParam> {
    asg.map_values(|a: Assignment| a.value)
}

fn digit_str(d: usize) -> (r: &'static str)
    requires
        d < 10,
    ensures
        r@ == seq![digit_char(d as nat)],
{
    proof {
        reveal_strlit("0");
        reveal_strlit("1");
        reveal_strlit("2");
        reveal_strlit("3");
        reveal_strlit("4");
        reveal_strlit("5");
        reveal_strlit("6");
        reveal_strlit("7");
        reveal_strlit("8");
        reveal_strlit("9");
    }
    match d {
        0 => "0",
        1 => "1",
        2 => "2",
        3 => "3",
        4 => "4",
        5 => "5",
        6 => "6",
        7 => "7",
        8 => "8",
        _ => "9",
    }
}

/// Appends the placeholder `$i` to `sql`.
fn push_placeholder(sql: &mut String, i: usize)
    requires
        1 <= i < 10,
    ensures
        final(sql)@ == old(sql)@ + placeholder(i as nat),
{
    proof {
        reveal_strlit("$");
    }
    sql.append("$");
    sql.append(digit_str(i));
    proof {
        assert(decimal(i as nat) == seq![digit_char(i as nat)]);
        assert(final(sql)@ =~= old(sql)@ + placeholder(i as nat));
    }
}

/// Builds the update of `table` that applies `asg` to the row whose id is
/// `id` and returns that row's `returning` columns. The `k`-th assignment
/// is bound to `$k` and the id to the placeholder after the last one.
pub fn update_statement(table: &str, asg: &Vec<Assignment>, id: i32, returning: &str) -> (r: Statement)
    requires
        1 <= asg.len() <= MAX_ASSIGNMENTS,
    ensures
        r.sql@ == update_sql(table@, columns_of(asg@), returning@),
        r.params@ == update_params(values_of(asg@), id),
{
    let mut sql = String::from_str("UPDATE ");
    sql.append(table);
    sql.append(" SET ");
    let ghost head = sql@;
    let mut params: Vec<SqlParam> = Vec::new();
    let mut i: usize = 0;
    while i < asg.len()
        invariant
            i <= asg.len() <= MAX_ASSIGNMENTS,
            head == "UPDATE "@ + table@ + " SET "@,
            sql@ == head + set_list(columns_of(asg@.subrange(0, i as int))),
            params@ == values_of(asg@.subrange(0, i as int)),
        decreases asg.len() - i,
    {
        let ghost before = sql@;
        if i > 0 {
            sql.append(", ");
        }
        sql.append(asg[i].column.as_str());
        sql.append(" = ");
        push_placeholder(&mut sql, i + 1);
        params.push(asg[i].value.duplicate());
        proof {
            let done = asg@.subrange(0, i as int);
            let next = asg@.subrange(0, i + 1);
            assert(columns_of(next).drop_last() =~= columns_of(done));
            assert(columns_of(next).last() == asg@[i as int].column@);
            assert(sql@ =~= head + set_list(columns_of(next)));
            assert(params@ =~= values_of(next));
        }
        i = i + 1;
    }
    sql.append(" WHERE id = ");
    push_placeholder(&mut sql, asg.len() + 1);
    sql.append(" RETURNING ");
    sql.append(returning);
    params.push(SqlParam::Int(id));
    proof {
        assert(asg@.subrange(0, asg.len() as int) =~= asg@);
        assert(sql@ =~= update_sql(table@, columns_of(asg@), returning@));
    }
    Statement { sql, params }
}

} // verus!
