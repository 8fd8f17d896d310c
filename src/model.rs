use vstd::prelude::*;

verus! {

/// A row of the `productos` table. `precio` holds the IEEE-754 bit pattern
/// of the stored single-precision price, so that it passes through unchanged.
#[derive(Clone, Debug, PartialEq)]
pub struct Producto {
    pub id: i32,
    pub nombre: String,
    pub categoria: String,
    pub precio: u32,
    pub cantidad: i32,
}

/// A row of the `clientes` table. `presupuesto` holds the IEEE-754 bit
/// pattern of the stored single-precision budget.
#[derive(Clone, Debug, PartialEq)]
pub struct Cliente {
    pub id: i32,
    pub nombre: String,
    pub telefono: String,
    pub presupuesto: u32,
}

/// Payload of a product creation: every column but the generated id.
#[derive(Clone, Debug, PartialEq)]
pub struct CreateProductoBody {
    pub nombre: String,
    pub categoria: String,
    pub precio: u32,
    pub cantidad: i32,
}

/// Payload of a customer creation: every column but the generated id.
#[derive(Clone, Debug, PartialEq)]
pub struct CreateClienteBody {
    pub nombre: String,
    pub telefono: String,
    pub presupuesto: u32,
}

/// Payload of a partial product update: an absent field is left unchanged.
#[derive(Clone, Debug, PartialEq)]
pub struct UpdateProductoBody {
    pub nombre: Option<String>,
    pub categoria: Option<String>,
    pub precio: Option<u32>,
    pub cantidad: Option<i32>,
}

/// Payload of a partial customer update: an absent field is left unchanged.
#[derive(Clone, Debug, PartialEq)]
pub struct UpdateClienteBody {
    pub nombre: Option<String>,
    pub telefono: Option<String>,
    pub presupuesto: Option<u32>,
}

/// One `column = value` assignment of a product update.
#[derive(Clone, Debug, PartialEq)]
pub enum ProductoCampo {
    Nombre(String),
    Categoria(String),
    Precio(u32),
    Cantidad(i32),
}

/// One `column = value` assignment of a customer update.
#[derive(Clone, Debug, PartialEq)]
pub enum ClienteCampo {
    Nombre(String),
    Telefono(String),
    Presupuesto(u32),
}

impl CreateProductoBody {
    /// The row that inserting this payload yields under the generated `id`.
    pub open spec fn row(self, id: i32) -> Producto {
        Producto {
            id,
            nombre: self.nombre,
            categoria: self.categoria,
            precio: self.precio,
            cantidad: self.cantidad,
        }
    }
}

impl CreateClienteBody {
    /// The row that inserting this payload yields under the generated `id`.
    pub open spec fn row(self, id: i32) -> Cliente {
        Cliente { id, nombre: self.nombre, telefono: self.telefono, presupuesto: self.presupuesto }
    }
}

impl UpdateProductoBody {
    pub open spec fn has_no_field(self) -> bool {
        self.nombre is None && self.categoria is None && self.precio is None
            && self.cantidad is None
    }

    /// The assignments of this update, in the fixed column order
    /// nombre, categoria, precio, cantidad, one for each present field.
    pub open spec fn campos(self) -> Seq<ProductoCampo> {
        let s0 = Seq::<ProductoCampo>::empty();
        let s1 = match self.nombre {
            Some(v) => s0.push(ProductoCampo::Nombre(v)),
            None => s0,
        };
        let s2 = match self.categoria {
            Some(v) => s1.push(ProductoCampo::Categoria(v)),
            None => s1,
        };
        let s3 = match self.precio {
            Some(v) => s2.push(ProductoCampo::Precio(v)),
            None => s2,
        };
        match self.cantidad {
            Some(v) => s3.push(ProductoCampo::Cantidad(v)),
            None => s3,
        }
    }
}

impl UpdateClienteBody {
    pub open spec fn has_no_field(self) -> bool {
        self.nombre is None && self.telefono is None && self.presupuesto is None
    }

    /// The assignments of this update, in the fixed column order
    /// nombre, telefono, presupuesto, one for each present field.
    pub open spec fn campos(self) -> Seq<ClienteCampo> {
        let s0 = Seq::<ClienteCampo>::empty();
        let s1 = match self.nombre {
            Some(v) => s0.push(ClienteCampo::Nombre(v)),
            None => s0,
        };
        let s2 = match self.telefono {
            Some(v) => s1.push(ClienteCampo::Telefono(v)),
            None => s1,
        };
        match self.presupuesto {
            Some(v) => s2.push(ClienteCampo::Presupuesto(v)),
            None => s2,
        }
    }
}

impl Producto {
    /// This row with every field that `b` holds replaced by its value.
    pub open spec fn patched(self, b: UpdateProductoBody) -> Producto {
        Producto {
            id: self.id,
            nombre: match b.nombre { Some(v) => v, None => self.nombre },
            categoria: match b.categoria { Some(v) => v, None => self.categoria },
            precio: match b.precio { Some(v) => v, None => self.precio },
            cantidad: match b.cantidad { Some(v) => v, None => self.cantidad },
        }
    }

    /// This row after one assignment.
    pub open spec fn assigned(self, c: ProductoCampo) -> Producto {
        match c {
            ProductoCampo::Nombre(v) => Producto { nombre: v, ..self },
            ProductoCampo::Categoria(v) => Producto { categoria: v, ..self },
            ProductoCampo::Precio(v) => Producto { precio: v, ..self },
            ProductoCampo::Cantidad(v) => Producto { cantidad: v, ..self },
        }
    }

    /// This row after the assignments `cs`, applied from first to last.
    pub open spec fn assigned_all(self, cs: Seq<ProductoCampo>) -> Producto
        decreases cs.len(),
    {
        if cs.len() == 0 {
            self
        } else {
            self.assigned_all(cs.drop_last()).assigned(cs.last())
        }
    }
}

impl Cliente {
    /// This row with every field that `b` holds replaced by its value.
    pub open spec fn patched(self, b: UpdateClienteBody) -> Cliente {
        Cliente {
            id: self.id,
            nombre: match b.nombre { Some(v) => v, None => self.nombre },
            telefono: match b.telefono { Some(v) => v, None => self.telefono },
            presupuesto: match b.presupuesto { Some(v) => v, None => self.presupuesto },
        }
    }

    /// This row after one assignment.
    pub open spec fn assigned(self, c: ClienteCampo) -> Cliente {
        match c {
            ClienteCampo::Nombre(v) => Cliente { nombre: v, ..self },
            ClienteCampo::Telefono(v) => Cliente { telefono: v, ..self },
            ClienteCampo::Presupuesto(v) => Cliente { presupuesto: v, ..self },
        }
    }

    /// This row after the assignments `cs`, applied from first to last.
    pub open spec fn assigned_all(self, cs: Seq<ClienteCampo>) -> Cliente
        decreases cs.len(),
    {
        if cs.len() == 0 {
            self
        } else {
            self.assigned_all(cs.drop_last()).assigned(cs.last())
        }
    }
}

} // verus!
