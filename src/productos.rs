use vstd::prelude::*;
use crate::model::{CreateProductoBody, ProductoCampo, UpdateProductoBody};
use crate::sql::{update_params, update_sql, columns_of, values_of, update_statement, Assignment, SqlParam, Statement};

verus! {

/// The columns that every product statement returns, in row order.
pub open spec fn producto_columns() -> Seq<char> {
    "id, nombre, categoria, precio, cantidad"@
}

impl ProductoCampo {
    /// The column this assignment sets.
    pub open spec fn column(self) -> Seq<char> {
        match self {
            ProductoCampo::Nombre(_) => "nombre"@,
            ProductoCampo::Categoria(_) => "categoria"@,
            ProductoCampo::Precio(_) => "precio"@,
            ProductoCampo::Cantidad(_) => "cantidad"@,
        }
    }

    /// The value this assignment binds.
    pub open spec fn param(self) -> SqlParam {
        match self {
            ProductoCampo::Nombre(v) => SqlParam::Text(v),
            ProductoCampo::Categoria(v) => SqlParam::Text(v),
            ProductoCampo::Precio(v) => SqlParam::Real(v),
            ProductoCampo::Cantidad(v) => SqlParam::Int(v),
        }
    }
}

/// The columns that the update `b` sets, in order.
pub open spec fn producto_update_columns(b: UpdateProductoBody) -> Seq<Seq<char>> {
    b.campos().map_values(|c: ProductoCampo| c.column())
}

/// The values that the update `b` assigns, in order.
pub open spec fn producto_update_values(b: UpdateProductoBody) -> Seq<SqlParam> {
    b.campos().map_values(|c: ProductoCampo| c.param())
}

/// The statement that lists every product.
pub fn list_productos_statement() -> (r: Statement)
    ensures
        r.sql@ == "SELECT id, nombre, categoria, precio, cantidad FROM productos"@,
        r.params@ == Seq::<SqlParam>::empty(),
{
    Statement {
        sql: String::from_str("SELECT id, nombre, categoria, precio, cantidad FROM productos"),
        params: Vec::new(),
    }
}

/// The statement that inserts `b` and returns the new row.
pub fn create_producto_statement(b: &CreateProductoBody) -> (r: Statement)
    ensures
        r.sql@ == "INSERT INTO productos (nombre, categoria, precio, cantidad) VALUES ($1, $2, $3, $4) RETURNING id, nombre, categoria, precio, cantidad"@,
        r.params@ == seq![
            SqlParam::Text(b.nombre),
            SqlParam::Text(b.categoria),
            SqlParam::Real(b.precio),
            SqlParam::Int(b.cantidad),
        ],
{
    let mut params: Vec<SqlParam> = Vec::new();
    params.push(SqlParam::Text(b.nombre.clone()));
    params.push(SqlParam::Text(b.categoria.clone()));
    params.push(SqlParam::Real(b.precio));
    params.push(SqlParam::Int(b.cantidad));
    proof {
        assert(params@ =~= seq![
            SqlParam::Text(b.nombre),
            SqlParam::Text(b.categoria),
            SqlParam::Real(b.precio),
            SqlParam::Int(b.cantidad),
        ]);
    }
    Statement {
        sql: String::from_str(
            "INSERT INTO productos (nombre, categoria, precio, cantidad) VALUES ($1, $2, $3, $4) RETURNING id, nombre, categoria, precio, cantidad",
        ),
        params,
    }
}

/// The statement that deletes the product whose id is `id`.
pub fn delete_producto_statement(id: i32) -> (r: Statement)
    ensures
        r.sql@ == "DELETE FROM productos WHERE id = $1"@,
        r.params@ == seq![SqlParam::Int(id)],
{
    let mut params: Vec<SqlParam> = Vec::new();
    params.push(SqlParam::Int(id));
    proof {
        assert(params@ =~= seq![SqlParam::Int(id)]);
    }
    Statement { sql: String::from_str("DELETE FROM productos WHERE id = $1"), params }
}

/// Appends the assignment `c`, written as its column and bound value, to `asg`.
fn push_campo(asg: &mut Vec<Assignment>, column: &str, Ghost(c): Ghost<ProductoCampo>, value: SqlParam)
    requires
        column@ == c.column(),
        value == c.param(),
    ensures
        final(asg)@ == old(asg)@.push(Assignment { column: final(asg)@.last().column, value }),
        final(asg)@.last().column@ == c.column(),
{
    asg.push(Assignment { column: String::from_str(column), value });
}

/// The assignments of `b`, one for each present field, in column order.
fn producto_assignments(b: &UpdateProductoBody) -> (r: Vec<Assignment>)
    ensures
        columns_of(r@) == producto_update_columns(*b),
        values_of(r@) == producto_update_values(*b),
{
    let mut asg: Vec<Assignment> = Vec::new();
    let ghost mut cs = Seq::<ProductoCampo>::empty();
    if let Some(v) = &b.nombre {
        push_campo(&mut asg, "nombre", Ghost(ProductoCampo::Nombre(*v)), SqlParam::Text(v.clone()));
        proof { cs = cs.push(ProductoCampo::Nombre(*v)); }
    }
    assert(columns_of(asg@) =~= cs.map_values(|c: ProductoCampo| c.column()));
    assert(values_of(asg@) =~= cs.map_values(|c: ProductoCampo| c.param()));
    if let Some(v) = &b.categoria {
        push_campo(&mut asg, "categoria", Ghost(ProductoCampo::Categoria(*v)), SqlParam::Text(v.clone()));
        proof { cs = cs.push(ProductoCampo::Categoria(*v)); }
    }
    assert(columns_of(asg@) =~= cs.map_values(|c: ProductoCampo| c.column()));
    assert(values_of(asg@) =~= cs.map_values(|c: ProductoCampo| c.param()));
    if let Some(v) = b.precio {
        push_campo(&mut asg, "precio", Ghost(ProductoCampo::Precio(v)), SqlParam::Real(v));
        proof { cs = cs.push(ProductoCampo::Precio(v)); }
    }
    assert(columns_of(asg@) =~= cs.map_values(|c: ProductoCampo| c.column()));
    assert(values_of(asg@) =~= cs.map_values(|c: ProductoCampo| c.param()));
    if let Some(v) = b.cantidad {
        push_campo(&mut asg, "cantidad", Ghost(ProductoCampo::Cantidad(v)), SqlParam::Int(v));
        proof { cs = cs.push(ProductoCampo::Cantidad(v)); }
    }
    assert(cs == b.campos());
    assert(columns_of(asg@) =~= producto_update_columns(*b));
    assert(values_of(asg@) =~= producto_update_values(*b));
    asg
}

/// The statement that applies the present fields of `b` to the product whose
/// id is `id` and returns the row, or `None` where `b` holds no field.
pub fn update_producto_statement(id: i32, b: &UpdateProductoBody) -> (r: Option<Statement>)
    ensures
        r is None <==> b.has_no_field(),
        r matches Some(s) ==> s.sql@ == update_sql("productos"@, producto_update_columns(*b), producto_columns())
            && s.params@ == update_params(producto_update_values(*b), id),
{
    let asg = producto_assignments(b);
    proof {
        assert(columns_of(asg@).len() == asg@.len());
        assert(b.campos().len() <= 4);
        assert(b.campos().len() == 0 <==> b.has_no_field());
    }
    if asg.len() == 0 {
        None
    } else {
        Some(update_statement("productos", &asg, id, "id, nombre, categoria, precio, cantidad"))
    }
}

} // verus!
