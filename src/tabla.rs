use vstd::prelude::*;
use crate::model::{Cliente, CreateProductoBody, Producto, ProductoCampo, ClienteCampo, UpdateClienteBody, UpdateProductoBody};
use crate::sql::SqlParam;
use crate::productos::{producto_update_columns, producto_update_values};
use crate::clientes::{cliente_update_columns, cliente_update_values};

verus! {

// What the statements of this library do to the rows of a table. The
// database assigns the id of an inserted row; its primary key makes that id
// fresh.

/// Whether some row of `t` has the id `id`.
pub open spec fn has_producto(t: Seq<Producto>, id: i32) -> bool {
    exists|i: int| 0 <= i < t.len() && t[i].id == id
}

/// Whether no two rows of `t` share an id.
pub open spec fn unique_ids(t: Seq<Producto>) -> bool {
    forall|i: int, j: int| 0 <= i < t.len() && 0 <= j < t.len() && i != j ==> t[i].id != t[j].id
}

/// Whether `p` holds the fields of the payload `b`.
pub open spec fn holds_payload(p: Producto, b: CreateProductoBody) -> bool {
    p.nombre == b.nombre && p.categoria == b.categoria && p.precio == b.precio
        && p.cantidad == b.cantidad
}

/// The rows after the insertion of `b` under the generated id `id`.
pub open spec fn productos_after_insert(t: Seq<Producto>, b: CreateProductoBody, id: i32) -> Seq<Producto> {
    t.push(b.row(id))
}

/// The rows after the insertions of `bs`, the `k`-th one under the id `ids[k]`.
pub open spec fn productos_after_inserts(
    t: Seq<Producto>,
    bs: Seq<CreateProductoBody>,
    ids: Seq<i32>,
) -> Seq<Producto>
    decreases bs.len(),
{
    if bs.len() == 0 || ids.len() == 0 {
        t
    } else {
        productos_after_insert(
            productos_after_inserts(t, bs.drop_last(), ids.drop_last()),
            bs.last(),
            ids.last(),
        )
    }
}

/// Whether `t` holds a row with the fields of `b` under the id `id`.
pub open spec fn lists_payload(t: Seq<Producto>, b: CreateProductoBody, id: i32) -> bool {
    exists|i: int| 0 <= i < t.len() && holds_payload(t[i], b) && t[i].id == id
}

/// The rows after the deletion of the id `id`.
pub open spec fn productos_after_delete(t: Seq<Producto>, id: i32) -> Seq<Producto> {
    t.filter(|p: Producto| p.id != id)
}

/// The rows after an update of the row `id` by the assignments `cs`.
pub open spec fn productos_after_update(t: Seq<Producto>, id: i32, cs: Seq<ProductoCampo>) -> Seq<Producto> {
    t.map_values(|p: Producto| if p.id == id { p.assigned_all(cs) } else { p })
}

/// Whether some row of `t` has the id `id`.
pub open spec fn has_cliente(t: Seq<Cliente>, id: i32) -> bool {
    exists|i: int| 0 <= i < t.len() && t[i].id == id
}

/// The rows after the deletion of the id `id`.
pub open spec fn clientes_after_delete(t: Seq<Cliente>, id: i32) -> Seq<Cliente> {
    t.filter(|c: Cliente| c.id != id)
}

/// The rows after an update of the row `id` by the assignments `cs`.
pub open spec fn clientes_after_update(t: Seq<Cliente>, id: i32, cs: Seq<ClienteCampo>) -> Seq<Cliente> {
    t.map_values(|c: Cliente| if c.id == id { c.assigned_all(cs) } else { c })
}

/// An inserted row holds the payload's fields under the generated id, and
/// where ids were unique and the generated one fresh, they stay unique.
pub proof fn law_create_producto(t: Seq<Producto>, b: CreateProductoBody, id: i32)
    requires
        !has_producto(t, id),
    ensures
        holds_payload(productos_after_insert(t, b, id).last(), b),
        productos_after_insert(t, b, id).last().id == id,
        forall|i: int| 0 <= i < t.len() ==> t[i].id != id,
        unique_ids(t) ==> unique_ids(productos_after_insert(t, b, id)),
{
}

/// After `N` insertions the table holds at least `N` rows, and one row with
/// the fields of each inserted payload.
pub proof fn law_list_after_creates(t: Seq<Producto>, bs: Seq<CreateProductoBody>, ids: Seq<i32>)
    requires
        ids.len() == bs.len(),
    ensures
        productos_after_inserts(t, bs, ids).len() >= bs.len(),
        forall|k: int|
            0 <= k < bs.len() ==> #[trigger] lists_payload(productos_after_inserts(t, bs, ids), bs[k], ids[k]),
    decreases bs.len(),
{
    if bs.len() > 0 {
        let bs0 = bs.drop_last();
        let ids0 = ids.drop_last();
        law_list_after_creates(t, bs0, ids0);
        let t0 = productos_after_inserts(t, bs0, ids0);
        let t1 = productos_after_inserts(t, bs, ids);
        assert(t1 == t0.push(bs.last().row(ids.last())));
        assert forall|k: int| 0 <= k < bs.len() implies #[trigger] lists_payload(t1, bs[k], ids[k]) by {
            if k == bs.len() - 1 {
                assert(holds_payload(t1[t0.len() as int], bs[k]));
            } else {
                assert(bs0[k] == bs[k]);
                assert(ids0[k] == ids[k]);
                assert(lists_payload(t0, bs0[k], ids0[k]));
                let i = choose|i: int| 0 <= i < t0.len() && holds_payload(t0[i], bs0[k]) && t0[i].id == ids0[k];
                assert(t1[i] == t0[i]);
            }
        }
    }
}

/// After the deletion of `id` no row has that id, and every other row stays.
pub proof fn law_delete_producto(t: Seq<Producto>, id: i32)
    ensures
        !has_producto(productos_after_delete(t, id), id),
        forall|i: int| 0 <= i < t.len() && t[i].id != id ==> productos_after_delete(t, id).contains(t[i]),
{
    broadcast use vstd::seq_lib::group_filter_ensures;

}

/// After the deletion of `id` no row has that id, and every other row stays.
pub proof fn law_delete_cliente(t: Seq<Cliente>, id: i32)
    ensures
        !has_cliente(clientes_after_delete(t, id), id),
        forall|i: int| 0 <= i < t.len() && t[i].id != id ==> clientes_after_delete(t, id).contains(t[i]),
{
    broadcast use vstd::seq_lib::group_filter_ensures;

}

/// An update carries out exactly the present fields: applying its
/// assignments to a row gives the row with those fields replaced.
pub proof fn law_update_producto_patches(p: Producto, b: UpdateProductoBody)
    ensures
        p.assigned_all(b.campos()) == p.patched(b),
{
    let s0 = Seq::<ProductoCampo>::empty();
    let s1 = match b.nombre { Some(v) => s0.push(ProductoCampo::Nombre(v)), None => s0 };
    let s2 = match b.categoria { Some(v) => s1.push(ProductoCampo::Categoria(v)), None => s1 };
    let s3 = match b.precio { Some(v) => s2.push(ProductoCampo::Precio(v)), None => s2 };
    let s4 = b.campos();
    assert(s1.len() > 0 ==> s1.drop_last() =~= s0);
    assert(s2.len() > s1.len() ==> s2.drop_last() =~= s1);
    assert(s3.len() > s2.len() ==> s3.drop_last() =~= s2);
    assert(s4.len() > s3.len() ==> s4.drop_last() =~= s3);
    reveal_with_fuel(Producto::assigned_all, 5);
}

/// An update carries out exactly the present fields: applying its
/// assignments to a row gives the row with those fields replaced.
pub proof fn law_update_cliente_patches(c: Cliente, b: UpdateClienteBody)
    ensures
        c.assigned_all(b.campos()) == c.patched(b),
{
    let s0 = Seq::<ClienteCampo>::empty();
    let s1 = match b.nombre { Some(v) => s0.push(ClienteCampo::Nombre(v)), None => s0 };
    let s2 = match b.telefono { Some(v) => s1.push(ClienteCampo::Telefono(v)), None => s1 };
    let s3 = b.campos();
    assert(s1.len() > 0 ==> s1.drop_last() =~= s0);
    assert(s2.len() > s1.len() ==> s2.drop_last() =~= s1);
    assert(s3.len() > s2.len() ==> s3.drop_last() =~= s2);
    reveal_with_fuel(Cliente::assigned_all, 4);
}

/// An update with no field present carries no assignment and leaves every
/// row as it was.
pub proof fn law_empty_update_producto(t: Seq<Producto>, id: i32, b: UpdateProductoBody)
    requires
        b.has_no_field(),
    ensures
        b.campos().len() == 0,
        productos_after_update(t, id, b.campos()) == t,
{
    assert(productos_after_update(t, id, b.campos()) =~= t);
}

/// An update with no field present carries no assignment and leaves every
/// row as it was.
pub proof fn law_empty_update_cliente(t: Seq<Cliente>, id: i32, b: UpdateClienteBody)
    requires
        b.has_no_field(),
    ensures
        b.campos().len() == 0,
        clientes_after_update(t, id, b.campos()) == t,
{
    assert(clientes_after_update(t, id, b.campos()) =~= t);
}

/// An update that holds only a price sets the one column `precio`, and
/// re-reading the table shows every other field of every row unchanged.
pub proof fn law_update_only_precio(t: Seq<Producto>, id: i32, b: UpdateProductoBody, v: u32)
    requires
        b == (UpdateProductoBody { nombre: None, categoria: None, precio: Some(v), cantidad: None }),
    ensures
        producto_update_columns(b) == seq!["precio"@],
        producto_update_values(b) == seq![SqlParam::Real(v)],
        productos_after_update(t, id, b.campos()).len() == t.len(),
        forall|i: int| 0 <= i < t.len() ==> #[trigger] productos_after_update(t, id, b.campos())[i] == if t[i].id == id {
            Producto { precio: v, ..t[i] }
        } else {
            t[i]
        },
{
    assert(b.campos() =~= seq![ProductoCampo::Precio(v)]);
    assert(producto_update_columns(b) =~= seq!["precio"@]);
    assert(producto_update_values(b) =~= seq![SqlParam::Real(v)]);
    assert forall|i: int| 0 <= i < t.len() implies #[trigger] productos_after_update(t, id, b.campos())[i] == if t[i].id == id {
        Producto { precio: v, ..t[i] }
    } else {
        t[i]
    } by {
        law_update_producto_patches(t[i], b);
    }
}

/// An update that holds only a budget sets the one column `presupuesto`,
/// and re-reading the table shows every other field of every row unchanged.
pub proof fn law_update_only_presupuesto(t: Seq<Cliente>, id: i32, b: UpdateClienteBody, v: u32)
    requires
        b == (UpdateClienteBody { nombre: None, telefono: None, presupuesto: Some(v) }),
    ensures
        cliente_update_columns(b) == seq!["presupuesto"@],
        cliente_update_values(b) == seq![SqlParam::Real(v)],
        clientes_after_update(t, id, b.campos()).len() == t.len(),
        forall|i: int| 0 <= i < t.len() ==> #[trigger] clientes_after_update(t, id, b.campos())[i] == if t[i].id == id {
            Cliente { presupuesto: v, ..t[i] }
        } else {
            t[i]
        },
{
    assert(b.campos() =~= seq![ClienteCampo::Presupuesto(v)]);
    assert(cliente_update_columns(b) =~= seq!["presupuesto"@]);
    assert(cliente_update_values(b) =~= seq![SqlParam::Real(v)]);
    assert forall|i: int| 0 <= i < t.len() implies #[trigger] clientes_after_update(t, id, b.campos())[i] == if t[i].id == id {
        Cliente { presupuesto: v, ..t[i] }
    } else {
        t[i]
    } by {
        law_update_cliente_patches(t[i], b);
    }
}

} // verus!
