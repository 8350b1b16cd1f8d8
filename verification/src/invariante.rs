//! Proofs that the operations on the books keep their invariant.

use crate::categoria::{Actividad, TipoCategoria};
use crate::modelo::{pagos_de, ClubView};
use crate::pago::Pago;
use vstd::prelude::*;

verus! {

/// Filtering a list that grew by one element: the element is kept at the
/// end of the result exactly when it passes.
pub proof fn lema_filtro_push<A>(s: Seq<A>, x: A, pred: spec_fn(A) -> bool)
    ensures
        s.push(x).filter(pred) == if pred(x) {
            s.filter(pred).push(x)
        } else {
            s.filter(pred)
        },
{
    reveal(Seq::filter);
    assert(s.push(x).drop_last() =~= s);
}

/// The payments of a member in a ledger that grew by one payment.
pub proof fn lema_pagos_de_push(pagos: Seq<Pago>, p: Pago, dni: u128)
    ensures
        pagos_de(pagos.push(p), dni) == if p.dni_socio == dni {
            pagos_de(pagos, dni).push(p)
        } else {
            pagos_de(pagos, dni)
        },
{
    lema_filtro_push(pagos, p, |q: Pago| q.dni_socio == dni);
}

/// What `posicion` finds: the first member with the dni, or nothing where
/// no member has it.
pub proof fn lema_posicion(v: ClubView, dni: u128)
    ensures
        v.existe_socio(dni) == v.posicion(dni).is_some(),
        match v.posicion(dni) {
            Some(i) => {
                &&& 0 <= i < v.socios.len()
                &&& v.socios[i].dni == dni
                &&& forall|j: int| 0 <= j < i ==> v.socios[j].dni != dni
            },
            None => forall|j: int| 0 <= j < v.socios.len() ==> v.socios[j].dni != dni,
        },
{
    v.dnis().index_of_first_ensures(dni);
    match v.posicion(dni) {
        Some(i) => {
            assert forall|j: int| 0 <= j < i implies v.socios[j].dni != dni by {
                assert(v.dnis()[j] != dni);
            }
        },
        None => {
            assert forall|j: int| 0 <= j < v.socios.len() implies v.socios[j].dni != dni by {
                assert(v.dnis()[j] == v.socios[j].dni);
            }
        },
    }
}

/// The invariant speaks of the registry and the ledger alone: books that
/// agree on both are well formed together.
pub proof fn lema_mismos_libros(v: ClubView, w: ClubView)
    requires
        v.bien_formado(),
        w.socios == v.socios,
        w.pagos == v.pagos,
    ensures
        w.bien_formado(),
{
    assert forall|i: int| 0 <= i < w.socios.len() implies #[trigger] w.colas_validas(i) by {
        assert(v.colas_validas(i));
    }
}

/// Issuing a payment keeps the invariant.
pub proof fn lema_con_pago_bien_formado(
    v: ClubView,
    dni: u128,
    costo: u128,
    vencimiento: u64,
    descuento: bool,
)
    requires
        v.bien_formado(),
        v.pagos.len() < usize::MAX,
    ensures
        v.con_pago(dni, costo, vencimiento, descuento).bien_formado(),
{
    let w = v.con_pago(dni, costo, vencimiento, descuento);
    lema_posicion(v, dni);
    assert forall|i: int| 0 <= i < w.socios.len() implies #[trigger] w.colas_validas(i) by {
        // The queues name payments that the ledger still holds unchanged,
        // and the new id is greater than every id given before.
        assert(v.colas_validas(i));
    }
}

/// Registering a member whose dni is new keeps the invariant.
pub proof fn lema_tras_registro_bien_formado(
    v: ClubView,
    dni: u128,
    categoria: TipoCategoria,
    actividad: Option<Actividad>,
    precio: u128,
    ahora: u64,
)
    requires
        v.bien_formado(),
        v.pagos.len() < usize::MAX,
        !v.existe_socio(dni),
    ensures
        v.tras_registro(dni, categoria, actividad, precio, ahora).bien_formado(),
{
    let w = v.tras_registro(dni, categoria, actividad, precio, ahora);
    lema_posicion(v, dni);
    assert forall|i: int| 0 <= i < w.socios.len() implies #[trigger] w.colas_validas(i) by {
        // The new member stands last and owes the new payment alone.
        if i < v.socios.len() {
            assert(v.colas_validas(i));
        }
    }
}

/// Paying the head of a pending queue keeps the invariant.
pub proof fn lema_tras_cobro_bien_formado(v: ClubView, i: int, ahora: u64)
    requires
        v.bien_formado(),
        0 <= i < v.socios.len(),
        v.socios[i].pagos_pendientes.len() > 0,
    ensures
        v.tras_cobro(i, ahora).bien_formado(),
        !v.cabeza(i).pagado,
        1 <= v.socios[i].pagos_pendientes[0] <= v.pagos.len(),
{
    let w = v.tras_cobro(i, ahora);
    assert(v.colas_validas(i));
    assert forall|j: int| 0 <= j < w.socios.len() implies #[trigger] w.colas_validas(j) by {
        // The payment settled belongs to the member at `i` and to nobody
        // else, and every other id of that member's queue is greater.
        assert(v.colas_validas(j));
    }
}

/// A registered member has at least one payment in the ledger.
pub proof fn lema_socio_tiene_pagos(v: ClubView, i: int)
    requires
        v.bien_formado(),
        0 <= i < v.socios.len(),
    ensures
        pagos_de(v.pagos, v.socios[i].dni).len() >= 1,
{
    let s = v.socios[i];
    assert(v.colas_validas(i));
    // One of the queues is not empty: what stands first in it is a payment
    // of the member.
    let id = if s.pagos_pendientes.len() > 0 {
        s.pagos_pendientes[0]
    } else {
        s.pagos_realizados[0]
    };
    v.pagos.lemma_filter_contains(|q: Pago| q.dni_socio == s.dni, id - 1);
}

} // verus!
