//! One billing instance of the ledger.

use vstd::prelude::*;

verus! {

/// A payment: what a member owes or has paid for one period.
#[derive(Clone, Copy, Debug, PartialEq, Eq)]
pub struct Pago {
    /// Position of the payment in the ledger, counted from 1.
    pub id: u128,
    pub dni_socio: u128,
    pub costo: u128,
    /// When the payment was made, once it has been.
    pub fecha_pago: Option<u64>,
    pub fecha_vencimiento: u64,
    pub pagado: bool,
    /// Whether the amount was reduced when the payment was issued.
    pub tiene_descuento: bool,
}

impl Pago {
    /// Builds a payment from its parts.
    pub fn crear_pago(
        dni_socio: u128,
        id: u128,
        costo: u128,
        fecha_vencimiento: u64,
        fecha_pago: Option<u64>,
        ok: bool,
        descuento: bool,
    ) -> (pago: Pago)
        ensures
            pago == (Pago {
                id,
                dni_socio,
                costo,
                fecha_pago,
                fecha_vencimiento,
                pagado: ok,
                tiene_descuento: descuento,
            }),
    {
        Pago {
            id,
            dni_socio,
            costo,
            fecha_pago,
            fecha_vencimiento,
            pagado: ok,
            tiene_descuento: descuento,
        }
    }

    /// A payment is late when it was made after its due date. One that has
    /// not been made is not late, however long ago it fell due.
    pub open spec fn spec_esta_vencido(&self) -> bool {
        match self.fecha_pago {
            Some(fecha) => fecha > self.fecha_vencimiento,
            None => false,
        }
    }

    /// Whether the payment was made after its due date.
    #[verifier::when_used_as_spec(spec_esta_vencido)]
    pub fn esta_vencido(&self) -> (r: bool)
        ensures
            r == self.spec_esta_vencido(),
    {
        match self.fecha_pago {
            Some(fecha) => fecha > self.fecha_vencimiento,
            None => false,
        }
    }

    /// A payment counts towards a discount when it is neither late nor
    /// itself discounted.
    pub open spec fn califica(self) -> bool {
        !self.spec_esta_vencido() && !self.tiene_descuento
    }

    /// What the ledger shows of the payment to a reader: its id, its due
    /// date, whether it was paid, and its amount.
    pub open spec fn resumen(self) -> (u128, u64, bool, u128) {
        (self.id, self.fecha_vencimiento, self.pagado, self.costo)
    }
}

} // verus!
