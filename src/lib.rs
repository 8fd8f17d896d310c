pub mod model;
pub mod sql;
pub mod productos;
pub mod clientes;
pub mod respuestas;
pub mod tabla;
