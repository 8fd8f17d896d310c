use vstd::prelude::*;
use crate::model::{CreateClienteBody, ClienteCampo, UpdateClienteBody};
use crate::sql::{update_params, update_sql, columns_of, values_of, update_statement, Assignment, SqlParam, Statement};

verus! {

/// The columns that every customer statement returns, in row order.
pub open spec fn cliente_columns() -> Seq<char> {
    "id, nombre, telefono, presupuesto"@
}

impl ClienteCampo {
    /// The column this assignment sets.
    pub open spec fn column(self) -> Seq<char> {
        match self {
            ClienteCampo::Nombre(_) => "nombre"@,
            ClienteCampo::Telefono(_) => "telefono"@,
            ClienteCampo::Presupuesto(_) => "presupuesto"@,
        }
    }

    /// The value this assignment binds.
    pub open spec fn param(self) -> SqlParam {
        match self {
            ClienteCampo::Nombre(v) => SqlParam::Text(v),
            ClienteCampo::Telefono(v) => SqlParam::Text(v),
            ClienteCampo::Presupuesto(v) => SqlParam::Real(v),
        }
    }
}

/// The columns that the update `b` sets, in order.
pub open spec fn cliente_update_columns(b: UpdateClienteBody) -> Seq<Seq<char>> {
    b.campos().map_values(|c: ClienteCampo| c.column())
}

/// The values that the update `b` assigns, in order.
pub open spec fn cliente_update_values(b: UpdateClienteBody) -> Seq<SqlParam> {
    b.campos().map_values(|c: ClienteCampo| c.param())
}

/// The statement that lists every customer.
pub fn list_clientes_statement() -> (r: Statement)
    ensures
        r.sql@ == "SELECT id, nombre, telefono, presupuesto FROM clientes"@,
        r.params@ == Seq::<SqlParam>::empty(),
{
    Statement {
        sql: String::from_str("SELECT id, nombre, telefono, presupuesto FROM clientes"),
        params: Vec::new(),
    }
}

/// The statement that inserts `b` and returns the new row.
pub fn create_cliente_statement(b: &CreateClienteBody) -> (r: Statement)
    ensures
        r.sql@ == "INSERT INTO clientes (nombre, telefono, presupuesto) VALUES ($1, $2, $3) RETURNING id, nombre, telefono, presupuesto"@,
        r.params@ == seq![
            SqlParam::Text(b.nombre),
            SqlParam::Text(b.telefono),
            SqlParam::Real(b.presupuesto),
        ],
{
    let mut params: Vec<SqlParam> = Vec::new();
    params.push(SqlParam::Text(b.nombre.clone()));
    params.push(SqlParam::Text(b.telefono.clone()));
    params.push(SqlParam::Real(b.presupuesto));
    proof {
        assert(params@ =~= seq![
            SqlParam::Text(b.nombre),
            SqlParam::Text(b.telefono),
            SqlParam::Real(b.presupuesto),
        ]);
    }
    Statement {
        sql: String::from_str(
            "INSERT INTO clientes (nombre, telefono, presupuesto) VALUES ($1, $2, $3) RETURNING id, nombre, telefono, presupuesto",
        ),
        params,
    }
}

/// The statement that deletes the customer whose id is `id`.
pub fn delete_cliente_statement(id: i32) -> (r: Statement)
    ensures
        r.sql@ == "DELETE FROM clientes WHERE id = $1"@,
        r.params@ == seq![SqlParam::Int(id)],
{
    let mut params: Vec<SqlParam> = Vec::new();
    params.push(SqlParam::Int(id));
    proof {
        assert(params@ =~= seq![SqlParam::Int(id)]);
    }
    Statement { sql: String::from_str("DELETE FROM clientes WHERE id = $1"), params }
}

/// Appends the assignment `c`, written as its column and bound value, to `asg`.
fn push_campo(asg: &mut Vec<Assignment>, column: &str, Ghost(c): Ghost<ClienteCampo>, value: SqlParam)
    requires
        column@ == c.column(),
        value == c.param(),
    ensures
        final(asg)@ == old(asg)@.push(Assignment { column: final(asg)@.last().column, value }),
        final(asg)@.last().column@ == c.column(),
{
    asg.push(Assignment { column: String::from_str(column), value });
}

/// The assignments of `b`, one for each present field, in column order.
fn cliente_assignments(b: &UpdateClienteBody) -> (r: Vec<Assignment>)
    ensures
        columns_of(r@) == cliente_update_columns(*b),
        values_of(r@) == cliente_update_values(*b),
{
    let mut asg: Vec<Assignment> = Vec::new();
    let ghost mut cs = Seq::<ClienteCampo>::empty();
    if let Some(v) = &b.nombre {
        push_campo(&mut asg, "nombre", Ghost(ClienteCampo::Nombre(*v)), SqlParam::Text(v.clone()));
        proof { cs = cs.push(ClienteCampo::Nombre(*v)); }
    }
    assert(columns_of(asg@) =~= cs.map_values(|c: ClienteCampo| c.column()));
    assert(values_of(asg@) =~= cs.map_values(|c: ClienteCampo| c.param()));
    if let Some(v) = &b.telefono {
        push_campo(&mut asg, "telefono", Ghost(ClienteCampo::Telefono(*v)), SqlParam::Text(v.clone()));
        proof { cs = cs.push(ClienteCampo::Telefono(*v)); }
    }
    assert(columns_of(asg@) =~= cs.map_values(|c: ClienteCampo| c.column()));
    assert(values_of(asg@) =~= cs.map_values(|c: ClienteCampo| c.param()));
    if let Some(v) = b.presupuesto {
        push_campo(&mut asg, "presupuesto", Ghost(ClienteCampo::Presupuesto(v)), SqlParam::Real(v));
        proof { cs = cs.push(ClienteCampo::Presupuesto(v)); }
    }
    assert(cs == b.campos());
    assert(columns_of(asg@) =~= cliente_update_columns(*b));
    assert(values_of(asg@) =~= cliente_update_values(*b));
    asg
}

/// The statement that applies the present fields of `b` to the customer whose
/// id is `id` and returns the row, or `None` where `b` holds no field.
pub fn update_cliente_statement(id: i32, b: &UpdateClienteBody) -> (r: Option<Statement>)
    ensures
        r is None <==> b.has_no_field(),
        r matches Some(s) ==> s.sql@ == update_sql("clientes"@, cliente_update_columns(*b), cliente_columns())
            && s.params@ == update_params(cliente_update_values(*b), id),
{
    let asg = cliente_assignments(b);
    proof {
        assert(columns_of(asg@).len() == asg@.len());
        assert(b.campos().len() <= 3);
        assert(b.campos().len() == 0 <==> b.has_no_field());
    }
    if asg.len() == 0 {
        None
    } else {
        Some(update_statement("clientes", &asg, id, "id, nombre, telefono, presupuesto"))
    }
}

} // verus!
