//! The monthly price of each category.

use crate::categoria::TipoCategoria;
use vstd::prelude::*;

verus! {

/// The price table: for each category its current monthly price, or nothing
/// while no price has been set.
#[derive(Clone, Copy, Debug, PartialEq, Eq)]
pub struct TablaPrecios {
    pub a: Option<u128>,
    pub b: Option<u128>,
    pub c: Option<u128>,
}

impl TablaPrecios {
    /// The price of a category, if the table holds one.
    pub open spec fn precio(self, categoria: TipoCategoria) -> Option<u128> {
        match categoria {
            TipoCategoria::A => self.a,
            TipoCategoria::B => self.b,
            TipoCategoria::C => self.c,
        }
    }

    /// The table with the price of one category overwritten.
    pub open spec fn con_precio(self, categoria: TipoCategoria, monto: u128) -> TablaPrecios {
        match categoria {
            TipoCategoria::A => TablaPrecios { a: Some(monto), ..self },
            TipoCategoria::B => TablaPrecios { b: Some(monto), ..self },
            TipoCategoria::C => TablaPrecios { c: Some(monto), ..self },
        }
    }

    /// Whether every category has a price.
    pub open spec fn completa(self) -> bool {
        self.a is Some && self.b is Some && self.c is Some
    }

    /// A table without prices.
    pub fn new() -> (t: TablaPrecios)
        ensures
            forall|c: TipoCategoria| t.precio(c) is None,
    {
        TablaPrecios { a: None, b: None, c: None }
    }

    /// Looks up the price of a category.
    pub fn get(&self, categoria: TipoCategoria) -> (r: Option<u128>)
        ensures
            r == self.precio(categoria),
    {
        match categoria {
            TipoCategoria::A => self.a,
            TipoCategoria::B => self.b,
            TipoCategoria::C => self.c,
        }
    }

    /// Sets the price of a category, whatever it was before.
    pub fn insert(&mut self, categoria: TipoCategoria, monto: u128)
        ensures
            *final(self) == old(self).con_precio(categoria, monto),
    {
        match categoria {
            TipoCategoria::A => {
                self.a = Some(monto);
            },
            TipoCategoria::B => {
                self.b = Some(monto);
            },
            TipoCategoria::C => {
                self.c = Some(monto);
            },
        }
    }
}

/// A price that was set is the price that is read, and setting it touches no
/// other category.
pub proof fn lema_precio_fijado(
    t: TablaPrecios,
    categoria: TipoCategoria,
    monto: u128,
    otra: TipoCategoria,
)
    ensures
        t.con_precio(categoria, monto).precio(categoria) == Some(monto),
        otra != categoria ==> t.con_precio(categoria, monto).precio(otra) == t.precio(otra),
        t.completa() ==> t.con_precio(categoria, monto).completa(),
{
}

} // verus!
