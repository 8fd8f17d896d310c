use vstd::prelude::*;
use crate::model::{Cliente, Producto, UpdateClienteBody, UpdateProductoBody};
use crate::sql::{update_params, update_sql, Statement};
use crate::productos::{producto_columns, producto_update_columns, producto_update_values, update_producto_statement};
use crate::clientes::{cliente_columns, cliente_update_columns, cliente_update_values, update_cliente_statement};

verus! {

/// A statement that the database did not carry out. Its cause (no such row,
/// a broken constraint, a lost connection) is deliberately not told apart.
#[derive(Clone, Copy, Debug, PartialEq)]
pub struct DbError;

/// The JSON body of a response.
#[derive(Clone, Debug, PartialEq)]
pub enum Cuerpo {
    Productos(Vec<Producto>),
    Producto(Producto),
    Clientes(Vec<Cliente>),
    Cliente(Cliente),
    Mensaje(String),
}

/// An HTTP status and the body sent with it.
#[derive(Clone, Debug, PartialEq)]
pub struct Respuesta {
    pub status: u16,
    pub cuerpo: Cuerpo,
}

pub open spec fn is_message(r: Respuesta, status: u16, text: Seq<char>) -> bool {
    r.status == status && (r.cuerpo matches Cuerpo::Mensaje(m) && m@ == text)
}

fn message(status: u16, text: &str) -> (r: Respuesta)
    ensures
        is_message(r, status, text@),
{
    Respuesta { status, cuerpo: Cuerpo::Mensaje(String::from_str(text)) }
}

/// The response to a listing of products: 200 with every row, or 404 when
/// the query failed.
pub fn respond_fetch_productos(outcome: Result<Vec<Producto>, DbError>) -> (r: Respuesta)
    ensures
        outcome matches Ok(rows) ==> r == (Respuesta { status: 200, cuerpo: Cuerpo::Productos(rows) }),
        outcome is Err ==> is_message(r, 404, "No productos found"@),
{
    match outcome {
        Ok(rows) => Respuesta { status: 200, cuerpo: Cuerpo::Productos(rows) },
        Err(_) => message(404, "No productos found"),
    }
}

/// The response to a listing of customers: 200 with every row, or 404 when
/// the query failed.
pub fn respond_fetch_clientes(outcome: Result<Vec<Cliente>, DbError>) -> (r: Respuesta)
    ensures
        outcome matches Ok(rows) ==> r == (Respuesta { status: 200, cuerpo: Cuerpo::Clientes(rows) }),
        outcome is Err ==> is_message(r, 404, "No clientes found"@),
{
    match outcome {
        Ok(rows) => Respuesta { status: 200, cuerpo: Cuerpo::Clientes(rows) },
        Err(_) => message(404, "No clientes found"),
    }
}

/// The response to a product insertion: 200 with the new row, or 500.
pub fn respond_create_producto(outcome: Result<Producto, DbError>) -> (r: Respuesta)
    ensures
        outcome matches Ok(row) ==> r == (Respuesta { status: 200, cuerpo: Cuerpo::Producto(row) }),
        outcome is Err ==> is_message(r, 500, "Failed to create producto"@),
{
    match outcome {
        Ok(row) => Respuesta { status: 200, cuerpo: Cuerpo::Producto(row) },
        Err(_) => message(500, "Failed to create producto"),
    }
}

/// The response to a customer insertion: 200 with the new row, or 500.
pub fn respond_create_cliente(outcome: Result<Cliente, DbError>) -> (r: Respuesta)
    ensures
        outcome matches Ok(row) ==> r == (Respuesta { status: 200, cuerpo: Cuerpo::Cliente(row) }),
        outcome is Err ==> is_message(r, 500, "Failed to create cliente"@),
{
    match outcome {
        Ok(row) => Respuesta { status: 200, cuerpo: Cuerpo::Cliente(row) },
        Err(_) => message(500, "Failed to create cliente"),
    }
}

/// The first step of a product update: the statement to run, or, where `b`
/// holds no field, the 400 response, with nothing sent to the database.
pub fn begin_update_producto(id: i32, b: &UpdateProductoBody) -> (r: Result<Statement, Respuesta>)
    ensures
        r is Err <==> b.has_no_field(),
        r matches Err(resp) ==> is_message(resp, 400, "No fields to update"@),
        r matches Ok(s) ==> s.sql@ == update_sql("productos"@, producto_update_columns(*b), producto_columns())
            && s.params@ == update_params(producto_update_values(*b), id),
{
    match update_producto_statement(id, b) {
        Some(s) => Ok(s),
        None => Err(message(400, "No fields to update")),
    }
}

/// The first step of a customer update: the statement to run, or, where `b`
/// holds no field, the 400 response, with nothing sent to the database.
pub fn begin_update_cliente(id: i32, b: &UpdateClienteBody) -> (r: Result<Statement, Respuesta>)
    ensures
        r is Err <==> b.has_no_field(),
        r matches Err(resp) ==> is_message(resp, 400, "No fields to update"@),
        r matches Ok(s) ==> s.sql@ == update_sql("clientes"@, cliente_update_columns(*b), cliente_columns())
            && s.params@ == update_params(cliente_update_values(*b), id),
{
    match update_cliente_statement(id, b) {
        Some(s) => Ok(s),
        None => Err(message(400, "No fields to update")),
    }
}

/// The response to a product update: 200 with the updated row, or 500,
/// also where no row had the id.
pub fn respond_update_producto(outcome: Result<Producto, DbError>) -> (r: Respuesta)
    ensures
        outcome matches Ok(row) ==> r == (Respuesta { status: 200, cuerpo: Cuerpo::Producto(row) }),
        outcome is Err ==> is_message(r, 500, "Failed to update producto"@),
{
    match outcome {
        Ok(row) => Respuesta { status: 200, cuerpo: Cuerpo::Producto(row) },
        Err(_) => message(500, "Failed to update producto"),
    }
}

/// The response to a customer update: 200 with the updated row, or 500,
/// also where no row had the id.
pub fn respond_update_cliente(outcome: Result<Cliente, DbError>) -> (r: Respuesta)
    ensures
        outcome matches Ok(row) ==> r == (Respuesta { status: 200, cuerpo: Cuerpo::Cliente(row) }),
        outcome is Err ==> is_message(r, 500, "Failed to update cliente"@),
{
    match outcome {
        Ok(row) => Respuesta { status: 200, cuerpo: Cuerpo::Cliente(row) },
        Err(_) => message(500, "Failed to update cliente"),
    }
}

/// The response to a product deletion: 200 whatever number of rows went,
/// none included, or 500 when the statement failed.
pub fn respond_delete_producto(outcome: Result<u64, DbError>) -> (r: Respuesta)
    ensures
        outcome is Ok ==> is_message(r, 200, "Producto deleted"@),
        outcome is Err ==> is_message(r, 500, "Failed to delete producto"@),
{
    match outcome {
        Ok(_) => message(200, "Producto deleted"),
        Err(_) => message(500, "Failed to delete producto"),
    }
}

/// The response to a customer deletion: 200 whatever number of rows went,
/// none included, or 500 when the statement failed.
pub fn respond_delete_cliente(outcome: Result<u64, DbError>) -> (r: Respuesta)
    ensures
        outcome is Ok ==> is_message(r, 200, "Cliente deleted"@),
        outcome is Err ==> is_message(r, 500, "Failed to delete cliente"@),
{
    match outcome {
        Ok(_) => message(200, "Cliente deleted"),
        Err(_) => message(500, "Failed to delete cliente"),
    }
}

} // verus!
