//! Auditing books that come from outside verified code.

use crate::club::Club;
use vstd::prelude::*;

verus! {

impl Club {
    /// Whether the ledger satisfies its part of the invariant: ids follow
    /// the positions, and a payment carries its time of payment exactly
    /// when it is paid.
    fn libro_en_orden(&self) -> (r: bool)
        ensures
            r == (self@.ids_correlativos() && self@.pagos_coherentes()),
    {
        let mut j: usize = 0;
        while j < self.pagos.len()
            invariant
                j <= self.pagos.len(),
                forall|k: int| 0 <= k < j ==> (#[trigger] self@.pagos[k]).id == k + 1,
                forall|k: int|
                    0 <= k < j ==> (#[trigger] self@.pagos[k]).pagado
                        == self@.pagos[k].fecha_pago.is_some(),
            decreases self.pagos.len() - j,
        {
            let pago = &self.pagos[j];
            if pago.id != j as u128 + 1 {
                assert(self@.pagos[j as int].id != j + 1);
                return false;
            }
            if pago.pagado != pago.fecha_pago.is_some() {
                assert(self@.pagos[j as int].pagado != self@.pagos[j as int].fecha_pago.is_some());
                return false;
            }
            j += 1;
        }
        true
    }

    /// Whether no two members share a dni.
    fn sin_dni_repetido(&self) -> (r: bool)
        ensures
            r == self@.dnis_unicos(),
    {
        let mut i: usize = 0;
        while i < self.socios.len()
            invariant
                i <= self.socios.len(),
                forall|a: int, b: int|
                    0 <= a < b < i ==> (#[trigger] self@.socios[a]).dni != (
                    #[trigger] self@.socios[b]).dni,
            decreases self.socios.len() - i,
        {
            let mut k: usize = 0;
            while k < i
                invariant
                    k <= i < self.socios.len(),
                    forall|a: int|
                        0 <= a < k ==> (#[trigger] self@.socios[a]).dni
                            != self@.socios[i as int].dni,
                decreases i - k,
            {
                if self.socios[k].dni == self.socios[i].dni {
                    assert(self@.socios[k as int].dni == self@.socios[i as int].dni);
                    return false;
                }
                k += 1;
            }
            i += 1;
        }
        true
    }

    /// Whether every id of a list names a payment of the ledger that
    /// belongs to the member and is in the given state.
    fn son_pagos_de(&self, ids: &Vec<u128>, dni: u128, pagado: bool) -> (r: bool)
        ensures
            r == forall|k: int|
                0 <= k < ids.len() ==> self@.es_pago_de(#[trigger] ids@[k], dni, pagado),
    {
        let mut k: usize = 0;
        while k < ids.len()
            invariant
                k <= ids.len(),
                forall|l: int| 0 <= l < k ==> self@.es_pago_de(#[trigger] ids@[l], dni, pagado),
            decreases ids.len() - k,
        {
            let id: u128 = ids[k];
            if id < 1 || id > self.pagos.len() as u128 {
                assert(!self@.es_pago_de(ids@[k as int], dni, pagado));
                return false;
            }
            let pago = &self.pagos[(id - 1) as usize];
            if pago.dni_socio != dni || pago.pagado != pagado {
                assert(!self@.es_pago_de(ids@[k as int], dni, pagado));
                return false;
            }
            k += 1;
        }
        true
    }

    /// Whether the queues of the member at position `i` are valid.
    fn colas_en_orden(&self, i: usize) -> (r: bool)
        requires
            i < self.socios.len(),
        ensures
            r == self@.colas_validas(i as int),
    {
        let socio = &self.socios[i];
        assert(socio@ == self@.socios[i as int]);
        if socio.pagos_pendientes.len() == 0 && socio.pagos_realizados.len() == 0 {
            return false;
        }
        if !self.son_pagos_de(&socio.pagos_pendientes, socio.dni, false) {
            return false;
        }
        if !self.son_pagos_de(&socio.pagos_realizados, socio.dni, true) {
            return false;
        }
        let mut k: usize = 1;
        while k < socio.pagos_pendientes.len()
            invariant
                1 <= k,
                i < self.socios.len(),
                socio@ == self@.socios[i as int],
                forall|a: int, b: int|
                    0 <= a < b < k && b < socio.pagos_pendientes.len() ==> (
                    #[trigger] socio.pagos_pendientes@[a]) < (
                    #[trigger] socio.pagos_pendientes@[b]),
            decreases socio.pagos_pendientes.len() - k,
        {
            if socio.pagos_pendientes[k - 1] >= socio.pagos_pendientes[k] {
                assert(!(self@.socios[i as int].pagos_pendientes[k - 1]
                    < self@.socios[i as int].pagos_pendientes[k as int]));
                return false;
            }
            assert forall|a: int, b: int| 0 <= a < b < k + 1 implies (
            #[trigger] socio.pagos_pendientes@[a]) < (#[trigger] socio.pagos_pendientes@[b]) by {
                if b == k && a < k - 1 {
                    assert(socio.pagos_pendientes@[a] < socio.pagos_pendientes@[k - 1]);
                }
            }
            k += 1;
        }
        true
    }

    /// Audits the books: whether they satisfy the invariant that every
    /// operation relies on. Books that were only ever changed through the
    /// operations of the club pass; books assembled elsewhere, or read back
    /// from storage, are to be audited before they are used.
    pub fn auditar(&self) -> (r: bool)
        ensures
            r == self.bien_formado(),
    {
        if !self.libro_en_orden() {
            return false;
        }
        if !self.sin_dni_repetido() {
            return false;
        }
        let largo: usize = self.pagos.len();
        let mut i: usize = 0;
        while i < self.socios.len()
            invariant
                i <= self.socios.len(),
                largo == self@.pagos.len(),
                self@.ids_correlativos(),
                self@.pagos_coherentes(),
                self@.dnis_unicos(),
                forall|a: int| 0 <= a < i ==> #[trigger] self@.colas_validas(a),
            decreases self.socios.len() - i,
        {
            if !self.colas_en_orden(i) {
                return false;
            }
            i += 1;
        }
        true
    }
}

} // verus!
