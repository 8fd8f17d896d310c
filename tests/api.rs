use tienda_api::clientes::{create_cliente_statement, delete_cliente_statement, list_clientes_statement, update_cliente_statement};
use tienda_api::model::{Cliente, CreateClienteBody, CreateProductoBody, Producto, UpdateClienteBody, UpdateProductoBody};
use tienda_api::productos::{create_producto_statement, delete_producto_statement, list_productos_statement, update_producto_statement};
use tienda_api::respuestas::{
    begin_update_cliente, begin_update_producto, respond_create_cliente, respond_create_producto,
    respond_delete_cliente, respond_delete_producto, respond_fetch_clientes, respond_fetch_productos,
    respond_update_cliente, respond_update_producto, Cuerpo, DbError, Respuesta,
};
use tienda_api::sql::{update_statement, Assignment, SqlParam, Statement};

fn mensaje(status: u16, text: &str) -> Respuesta {
    Respuesta { status, cuerpo: Cuerpo::Mensaje(text.to_string()) }
}

fn mouse_body() -> CreateProductoBody {
    CreateProductoBody {
        nombre: "Mouse".to_string(),
        categoria: "Periféricos".to_string(),
        precio: 19.99f32.to_bits(),
        cantidad: 50,
    }
}

fn mouse_row(id: i32) -> Producto {
    Producto {
        id,
        nombre: "Mouse".to_string(),
        categoria: "Periféricos".to_string(),
        precio: 19.99f32.to_bits(),
        cantidad: 50,
    }
}

fn ana(presupuesto: f32) -> Cliente {
    Cliente { id: 7, nombre: "Ana".to_string(), telefono: "555-0101".to_string(), presupuesto: presupuesto.to_bits() }
}

fn no_producto_fields() -> UpdateProductoBody {
    UpdateProductoBody { nombre: None, categoria: None, precio: None, cantidad: None }
}

#[test]
fn mouse_create_list_delete_scenario() {
    let body = mouse_body();
    let insert = create_producto_statement(&body);
    assert_eq!(
        insert.sql,
        "INSERT INTO productos (nombre, categoria, precio, cantidad) VALUES ($1, $2, $3, $4) RETURNING id, nombre, categoria, precio, cantidad"
    );
    assert_eq!(
        insert.params,
        vec![
            SqlParam::Text("Mouse".to_string()),
            SqlParam::Text("Periféricos".to_string()),
            SqlParam::Real(19.99f32.to_bits()),
            SqlParam::Int(50),
        ]
    );
    let created = respond_create_producto(Ok(mouse_row(12)));
    assert_eq!(created.status, 200);
    match &created.cuerpo {
        Cuerpo::Producto(p) => {
            assert!(p.id > 0);
            assert_eq!(p.nombre, body.nombre);
            assert_eq!(p.categoria, body.categoria);
            assert_eq!(f32::from_bits(p.precio), 19.99f32);
            assert_eq!(p.cantidad, 50);
        }
        other => panic!("unexpected body {:?}", other),
    }

    let list = list_productos_statement();
    assert_eq!(list.sql, "SELECT id, nombre, categoria, precio, cantidad FROM productos");
    assert!(list.params.is_empty());
    let listed = respond_fetch_productos(Ok(vec![mouse_row(12)]));
    assert_eq!(listed, Respuesta { status: 200, cuerpo: Cuerpo::Productos(vec![mouse_row(12)]) });

    let delete = delete_producto_statement(12);
    assert_eq!(delete, Statement { sql: "DELETE FROM productos WHERE id = $1".to_string(), params: vec![SqlParam::Int(12)] });
    assert_eq!(respond_delete_producto(Ok(1)), mensaje(200, "Producto deleted"));

    let after = respond_fetch_productos(Ok(vec![]));
    assert_eq!(after, Respuesta { status: 200, cuerpo: Cuerpo::Productos(vec![]) });
}

#[test]
fn presupuesto_only_update_scenario() {
    let body = UpdateClienteBody { nombre: None, telefono: None, presupuesto: Some(250.0f32.to_bits()) };
    let stmt = begin_update_cliente(7, &body).unwrap();
    assert_eq!(stmt.sql, "UPDATE clientes SET presupuesto = $1 WHERE id = $2 RETURNING id, nombre, telefono, presupuesto");
    assert_eq!(stmt.params, vec![SqlParam::Real(250.0f32.to_bits()), SqlParam::Int(7)]);
    let r = respond_update_cliente(Ok(ana(250.0)));
    assert_eq!(r.status, 200);
    match r.cuerpo {
        Cuerpo::Cliente(c) => {
            assert_eq!(c.nombre, "Ana");
            assert_eq!(c.telefono, "555-0101");
            assert_eq!(f32::from_bits(c.presupuesto), 250.0f32);
        }
        other => panic!("unexpected body {:?}", other),
    }
}

#[test]
fn empty_update_is_rejected_before_the_database() {
    assert_eq!(begin_update_producto(3, &no_producto_fields()), Err(mensaje(400, "No fields to update")));
    assert_eq!(update_producto_statement(3, &no_producto_fields()), None);
    let empty = UpdateClienteBody { nombre: None, telefono: None, presupuesto: None };
    assert_eq!(begin_update_cliente(3, &empty), Err(mensaje(400, "No fields to update")));
    assert_eq!(update_cliente_statement(3, &empty), None);
}

#[test]
fn precio_only_update_binds_first_placeholder() {
    let body = UpdateProductoBody { precio: Some(5.5f32.to_bits()), ..no_producto_fields() };
    let stmt = update_producto_statement(9, &body).unwrap();
    assert_eq!(stmt.sql, "UPDATE productos SET precio = $1 WHERE id = $2 RETURNING id, nombre, categoria, precio, cantidad");
    assert_eq!(stmt.params, vec![SqlParam::Real(5.5f32.to_bits()), SqlParam::Int(9)]);
}

#[test]
fn sparse_update_renumbers_placeholders() {
    let body = UpdateProductoBody { categoria: Some("Audio".to_string()), cantidad: Some(-2), ..no_producto_fields() };
    let stmt = update_producto_statement(4, &body).unwrap();
    assert_eq!(
        stmt.sql,
        "UPDATE productos SET categoria = $1, cantidad = $2 WHERE id = $3 RETURNING id, nombre, categoria, precio, cantidad"
    );
    assert_eq!(stmt.params, vec![SqlParam::Text("Audio".to_string()), SqlParam::Int(-2), SqlParam::Int(4)]);
}

#[test]
fn full_update_keeps_column_order() {
    let body = UpdateProductoBody {
        nombre: Some("Teclado".to_string()),
        categoria: Some("Periféricos".to_string()),
        precio: Some(30.0f32.to_bits()),
        cantidad: Some(8),
    };
    let stmt = begin_update_producto(1, &body).unwrap();
    assert_eq!(
        stmt.sql,
        "UPDATE productos SET nombre = $1, categoria = $2, precio = $3, cantidad = $4 WHERE id = $5 RETURNING id, nombre, categoria, precio, cantidad"
    );
    assert_eq!(stmt.params.len(), 5);
    assert_eq!(stmt.params[4], SqlParam::Int(1));
}

#[test]
fn cliente_update_of_name_and_phone() {
    let body = UpdateClienteBody { nombre: Some("Luis".to_string()), telefono: Some("123".to_string()), presupuesto: None };
    let stmt = update_cliente_statement(2, &body).unwrap();
    assert_eq!(stmt.sql, "UPDATE clientes SET nombre = $1, telefono = $2 WHERE id = $3 RETURNING id, nombre, telefono, presupuesto");
    assert_eq!(
        stmt.params,
        vec![SqlParam::Text("Luis".to_string()), SqlParam::Text("123".to_string()), SqlParam::Int(2)]
    );
}

#[test]
fn cliente_statements() {
    assert_eq!(list_clientes_statement().sql, "SELECT id, nombre, telefono, presupuesto FROM clientes");
    let body = CreateClienteBody { nombre: "Ana".to_string(), telefono: "555-0101".to_string(), presupuesto: 100.0f32.to_bits() };
    let insert = create_cliente_statement(&body);
    assert_eq!(
        insert.sql,
        "INSERT INTO clientes (nombre, telefono, presupuesto) VALUES ($1, $2, $3) RETURNING id, nombre, telefono, presupuesto"
    );
    assert_eq!(
        insert.params,
        vec![SqlParam::Text("Ana".to_string()), SqlParam::Text("555-0101".to_string()), SqlParam::Real(100.0f32.to_bits())]
    );
    assert_eq!(delete_cliente_statement(5).params, vec![SqlParam::Int(5)]);
    assert_eq!(delete_cliente_statement(5).sql, "DELETE FROM clientes WHERE id = $1");
}

#[test]
fn listing_holds_every_created_row() {
    let rows: Vec<Producto> = (1..=3).map(mouse_row).collect();
    let r = respond_fetch_productos(Ok(rows.clone()));
    assert_eq!(r.status, 200);
    match r.cuerpo {
        Cuerpo::Productos(listed) => {
            assert!(listed.len() >= 3);
            for row in &rows {
                assert!(listed.contains(row));
            }
        }
        other => panic!("unexpected body {:?}", other),
    }
    let r = respond_fetch_clientes(Ok(vec![ana(1.0)]));
    assert_eq!(r, Respuesta { status: 200, cuerpo: Cuerpo::Clientes(vec![ana(1.0)]) });
}

#[test]
fn deleting_a_missing_id_still_succeeds() {
    assert_eq!(respond_delete_producto(Ok(0)), mensaje(200, "Producto deleted"));
    assert_eq!(respond_delete_cliente(Ok(0)), mensaje(200, "Cliente deleted"));
}

#[test]
fn database_failures_map_to_one_status_each() {
    assert_eq!(respond_fetch_productos(Err(DbError)), mensaje(404, "No productos found"));
    assert_eq!(respond_fetch_clientes(Err(DbError)), mensaje(404, "No clientes found"));
    assert_eq!(respond_create_producto(Err(DbError)), mensaje(500, "Failed to create producto"));
    assert_eq!(respond_create_cliente(Err(DbError)), mensaje(500, "Failed to create cliente"));
    assert_eq!(respond_update_producto(Err(DbError)), mensaje(500, "Failed to update producto"));
    assert_eq!(respond_update_cliente(Err(DbError)), mensaje(500, "Failed to update cliente"));
    assert_eq!(respond_delete_producto(Err(DbError)), mensaje(500, "Failed to delete producto"));
    assert_eq!(respond_delete_cliente(Err(DbError)), mensaje(500, "Failed to delete cliente"));
}

#[test]
fn created_cliente_is_returned() {
    assert_eq!(respond_create_cliente(Ok(ana(3.0))), Respuesta { status: 200, cuerpo: Cuerpo::Cliente(ana(3.0)) });
    assert_eq!(
        respond_update_producto(Ok(mouse_row(2))),
        Respuesta { status: 200, cuerpo: Cuerpo::Producto(mouse_row(2)) }
    );
}

#[test]
fn generic_update_statement_numbers_from_one() {
    let asg = vec![
        Assignment { column: "a".to_string(), value: SqlParam::Int(1) },
        Assignment { column: "b".to_string(), value: SqlParam::Text("x".to_string()) },
        Assignment { column: "c".to_string(), value: SqlParam::Real(0) },
    ];
    let stmt = update_statement("t", &asg, 42, "id");
    assert_eq!(stmt.sql, "UPDATE t SET a = $1, b = $2, c = $3 WHERE id = $4 RETURNING id");
    assert_eq!(
        stmt.params,
        vec![SqlParam::Int(1), SqlParam::Text("x".to_string()), SqlParam::Real(0), SqlParam::Int(42)]
    );
    assert_eq!(SqlParam::Text("y".to_string()).duplicate(), SqlParam::Text("y".to_string()));
}
