//! The books of the club as a mathematical value, and what each operation
//! makes of them.

use crate::categoria::{categoria_de_nombre, Actividad, TipoCategoria};
use crate::cuenta::AccountId;
use crate::errores::ClubError;
use crate::pago::Pago;
use crate::precios::TablaPrecios;
use crate::socio::{actividad_asignada, SocioView};
use vstd::prelude::*;

verus! {

/// Milliseconds in a day; every time stamp counts milliseconds.
pub const MILISEGUNDOS_POR_DIA: u64 = 86_400_000;

/// How long after registration the first payment falls due: ten days.
pub const PLAZO_PRIMER_PAGO: u64 = 10 * MILISEGUNDOS_POR_DIA;

/// How long after the previous due date a renewal falls due: thirty days.
pub const PLAZO_RENOVACION: u64 = 30 * MILISEGUNDOS_POR_DIA;

/// The payments of a ledger that belong to one member, in ledger order.
pub open spec fn pagos_de(pagos: Seq<Pago>, dni: u128) -> Seq<Pago> {
    pagos.filter(|p: Pago| p.dni_socio == dni)
}

/// The last `k` payments of a list, or all of them where there are fewer.
pub open spec fn ultimos(pagos: Seq<Pago>, k: nat) -> Seq<Pago> {
    if k >= pagos.len() {
        pagos
    } else {
        pagos.subrange(pagos.len() - k, pagos.len() as int)
    }
}

/// The payments of a list that count towards a discount.
pub open spec fn calificados(pagos: Seq<Pago>) -> Seq<Pago> {
    pagos.filter(|p: Pago| p.califica())
}

/// What a reader is shown of each payment of a list.
pub open spec fn resumenes(pagos: Seq<Pago>) -> Seq<(u128, u64, bool, u128)> {
    pagos.map_values(|p: Pago| p.resumen())
}

/// The amounts of a list of payments.
pub open spec fn costos(pagos: Seq<Pago>) -> Seq<u128> {
    pagos.map_values(|p: Pago| p.costo)
}

/// The amounts of the last `k` payments of a list, or of all of them where
/// there are fewer, the most recent first.
pub open spec fn costos_recientes(pagos: Seq<Pago>, k: nat) -> Seq<u128> {
    Seq::new(
        if k >= pagos.len() {
            pagos.len()
        } else {
            k
        },
        |j: int| pagos[pagos.len() - 1 - j].costo,
    )
}

/// The share of an amount that a percentage takes, rounded down; nothing
/// where the product does not fit in 128 bits.
pub open spec fn porcentaje(monto: u128, descuento: u128) -> Option<u128> {
    if monto * descuento <= u128::MAX {
        Some(((monto * descuento) / 100) as u128)
    } else {
        None
    }
}

/// The mathematical value of a `Club`.
pub struct ClubView {
    pub socios: Seq<SocioView>,
    pub pagos: Seq<Pago>,
    pub precio_categoria: TablaPrecios,
    pub owner: Option<AccountId>,
    pub direcciones: Seq<AccountId>,
    pub politica: bool,
    pub descuento: u128,
    pub cantidad_meses: u128,
}

impl ClubView {
    // ----- who may act -----

    /// Whether the caller owns the club.
    pub open spec fn es_owner(self, caller: AccountId) -> bool {
        self.owner == Some(caller)
    }

    /// Whether the caller is the owner or on the list of authorized addresses.
    pub open spec fn esta_permitido(self, caller: AccountId) -> bool {
        self.direcciones.contains(caller) || self.es_owner(caller)
    }

    /// Whether the caller may act: anyone may while the policy is off, and
    /// only the owner and the listed addresses while it is on.
    pub open spec fn aceptar_modificaciones(self, caller: AccountId) -> bool {
        self.politica ==> self.esta_permitido(caller)
    }

    // ----- the price table -----

    /// What a caller is told when asking for the price of a category: the
    /// price, or that the caller may not act, or that there is no price.
    pub open spec fn precio_leido(self, caller: AccountId, categoria: TipoCategoria) -> Result<
        u128,
        ClubError,
    > {
        if !self.aceptar_modificaciones(caller) {
            Err(ClubError::NotAuthorized)
        } else {
            match self.precio_categoria.precio(categoria) {
                Some(precio) => Ok(precio),
                None => Err(ClubError::CategoryNotPriced),
            }
        }
    }

    /// The books with the price of one category overwritten.
    pub open spec fn con_precio(self, categoria: TipoCategoria, monto: u128) -> ClubView {
        ClubView { precio_categoria: self.precio_categoria.con_precio(categoria, monto), ..self }
    }

    // ----- the registry -----

    /// The dni of every member, in order of registration.
    pub open spec fn dnis(self) -> Seq<u128> {
        self.socios.map_values(|s: SocioView| s.dni)
    }

    /// Whether a member with that dni is registered.
    pub open spec fn existe_socio(self, dni: u128) -> bool {
        self.dnis().contains(dni)
    }

    /// The position of the first member with that dni.
    pub open spec fn posicion(self, dni: u128) -> Option<int> {
        self.dnis().index_of_first(dni)
    }

    // ----- the ledger -----

    /// The id the next payment will get: its position in the ledger,
    /// counted from 1.
    pub open spec fn siguiente_id(self) -> u128 {
        (self.pagos.len() + 1) as u128
    }

    /// The payment that is issued next for the given member and terms.
    pub open spec fn nuevo_pago(
        self,
        dni: u128,
        costo: u128,
        vencimiento: u64,
        descuento: bool,
    ) -> Pago {
        Pago {
            id: self.siguiente_id(),
            dni_socio: dni,
            costo,
            fecha_pago: None,
            fecha_vencimiento: vencimiento,
            pagado: false,
            tiene_descuento: descuento,
        }
    }

    /// The books after a payment has been issued: it stands at the end of
    /// the ledger and, where its member is registered, at the back of that
    /// member's pending queue.
    pub open spec fn con_pago(
        self,
        dni: u128,
        costo: u128,
        vencimiento: u64,
        descuento: bool,
    ) -> ClubView {
        ClubView {
            pagos: self.pagos.push(self.nuevo_pago(dni, costo, vencimiento, descuento)),
            socios: match self.posicion(dni) {
                Some(i) => self.socios.update(
                    i,
                    self.socios[i].con_pendiente(self.siguiente_id()),
                ),
                None => self.socios,
            },
            ..self
        }
    }

    /// The books after a member has been registered at time `ahora` for the
    /// monthly price `precio`: the member stands at the end of the registry,
    /// owing one payment that falls due ten days later.
    pub open spec fn tras_registro(
        self,
        dni: u128,
        categoria: TipoCategoria,
        actividad: Option<Actividad>,
        precio: u128,
        ahora: u64,
    ) -> ClubView {
        ClubView {
            pagos: self.pagos.push(
                self.nuevo_pago(dni, precio, (ahora + PLAZO_PRIMER_PAGO) as u64, false),
            ),
            socios: self.socios.push(
                SocioView {
                    dni,
                    categoria,
                    actividad,
                    fecha_registro: ahora,
                    pagos_realizados: Seq::empty(),
                    pagos_pendientes: seq![self.siguiente_id()],
                    pagos_sin_atrasos: 0,
                },
            ),
            ..self
        }
    }

    /// Why a registration is refused, if it is. The checks are made in
    /// this order: the caller may not act; the dni is taken; the category
    /// name is unknown; the category is `B` and the activity name is not
    /// that of a concrete activity; the category has no price.
    pub open spec fn rechazo_registro(
        self,
        caller: AccountId,
        dni: u128,
        cate: Seq<char>,
        act: Seq<char>,
    ) -> Option<ClubError> {
        if !self.aceptar_modificaciones(caller) {
            Some(ClubError::NotAuthorized)
        } else if self.existe_socio(dni) {
            Some(ClubError::MemberAlreadyExists)
        } else {
            match categoria_de_nombre(cate) {
                None => Some(ClubError::InvalidCategory),
                Some(c) => match actividad_asignada(c, act) {
                    Err(e) => Some(e),
                    Ok(_) => if self.precio_categoria.precio(c) is None {
                        Some(ClubError::CategoryNotPriced)
                    } else {
                        None
                    },
                },
            }
        }
    }

    /// The books after the registration of a member under the given names
    /// of category and activity, at the category's current price.
    pub open spec fn registro(
        self,
        dni: u128,
        cate: Seq<char>,
        act: Seq<char>,
        ahora: u64,
    ) -> ClubView {
        let c = categoria_de_nombre(cate).unwrap();
        self.tras_registro(
            dni,
            c,
            actividad_asignada(c, act)->Ok_0,
            self.precio_categoria.precio(c).unwrap(),
            ahora,
        )
    }

    /// The payment at the head of the pending queue of the member at
    /// position `i`.
    pub open spec fn cabeza(self, i: int) -> Pago {
        self.pagos[self.socios[i].pagos_pendientes[0] - 1]
    }

    /// The books after the member at position `i` has paid the head of the
    /// pending queue at time `ahora`: that payment is marked paid and moves
    /// from the pending queue to the back of the completed ones. Where it
    /// was marked paid already, nothing changes.
    pub open spec fn tras_cobro(self, i: int, ahora: u64) -> ClubView {
        let id = self.socios[i].pagos_pendientes[0];
        if self.cabeza(i).pagado {
            self
        } else {
            ClubView {
                pagos: self.pagos.update(
                    id - 1,
                    Pago { pagado: true, fecha_pago: Some(ahora), ..self.cabeza(i) },
                ),
                socios: self.socios.update(i, self.socios[i].con_cabeza_pagada()),
                ..self
            }
        }
    }

    /// Why a payment is refused, if it is. The checks are made in this
    /// order: the caller may not act; no member has the dni; the member
    /// owes nothing; the amount tendered is not exactly the amount of the
    /// payment at the head of the member's pending queue.
    pub open spec fn rechazo_cobro(self, caller: AccountId, dni: u128, monto: u128) -> Option<
        ClubError,
    > {
        if !self.aceptar_modificaciones(caller) {
            Some(ClubError::NotAuthorized)
        } else {
            match self.posicion(dni) {
                None => Some(ClubError::MemberNotFound),
                Some(i) => if self.socios[i].pagos_pendientes.len() == 0 {
                    Some(ClubError::NoPendingPayment)
                } else if !self.cabeza(i).pagado && self.cabeza(i).costo != monto {
                    Some(ClubError::AmountMismatch)
                } else {
                    None
                },
            }
        }
    }

    /// The books after the member with the given dni has paid what stands
    /// at the head of the pending queue.
    pub open spec fn cobro(self, dni: u128, ahora: u64) -> ClubView {
        self.tras_cobro(self.posicion(dni).unwrap(), ahora)
    }

    // ----- renewals -----

    /// How many of the member's most recent payments count towards a
    /// discount; the club looks at the last `cantidad_meses` of them.
    pub open spec fn cuenta_calificados(self, dni: u128) -> nat {
        calificados(ultimos(pagos_de(self.pagos, dni), self.cantidad_meses as nat)).len()
    }

    /// Whether every one of the member's last `cantidad_meses` payments
    /// counts towards a discount, there being that many.
    pub open spec fn merece_descuento(self, dni: u128) -> bool {
        self.cuenta_calificados(dni) == self.cantidad_meses
    }

    /// The amount of a renewal and whether it was reduced. A member who
    /// merits the discount pays the base price less the club's percentage
    /// of it. Where the percentage cannot be computed in 128 bits, or
    /// exceeds the price, the full price is charged.
    pub open spec fn cuota_renovacion(self, dni: u128, base: u128) -> (u128, bool) {
        if self.merece_descuento(dni) {
            match porcentaje(base, self.descuento) {
                Some(d) => if d <= base {
                    ((base - d) as u128, true)
                } else {
                    (base, false)
                },
                None => (base, false),
            }
        } else {
            (base, false)
        }
    }

    /// The due date of the member's most recent payment.
    pub open spec fn ultimo_vencimiento(self, dni: u128) -> u64 {
        pagos_de(self.pagos, dni).last().fecha_vencimiento
    }

    /// The monthly price of the category of the member at position `i`.
    pub open spec fn precio_de(self, i: int) -> Option<u128> {
        self.precio_categoria.precio(self.socios[i].categoria)
    }

    /// Why a renewal is refused, if it is: the caller may not act, no
    /// member has the dni, or the member's category has no price.
    pub open spec fn rechazo_renovacion(self, caller: AccountId, dni: u128) -> Option<ClubError> {
        if !self.aceptar_modificaciones(caller) {
            Some(ClubError::NotAuthorized)
        } else {
            match self.posicion(dni) {
                None => Some(ClubError::MemberNotFound),
                Some(i) => if self.precio_de(i) is None {
                    Some(ClubError::CategoryNotPriced)
                } else {
                    None
                },
            }
        }
    }

    /// The books after a renewal has been issued to a member: a payment of
    /// the member's renewal amount, due thirty days after the member's most
    /// recent payment.
    pub open spec fn tras_renovacion(self, dni: u128) -> ClubView {
        let base = self.precio_de(self.posicion(dni).unwrap()).unwrap();
        let (costo, rebajado) = self.cuota_renovacion(dni, base);
        self.con_pago(
            dni,
            costo,
            (self.ultimo_vencimiento(dni) + PLAZO_RENOVACION) as u64,
            rebajado,
        )
    }

    // ----- what always holds of the books -----

    /// The id of every payment is its position in the ledger, counted from 1.
    pub open spec fn ids_correlativos(self) -> bool {
        forall|j: int| 0 <= j < self.pagos.len() ==> (#[trigger] self.pagos[j]).id == j + 1
    }

    /// A payment carries the time it was paid exactly when it is paid.
    pub open spec fn pagos_coherentes(self) -> bool {
        forall|j: int|
            0 <= j < self.pagos.len() ==> (#[trigger] self.pagos[j]).pagado
                == self.pagos[j].fecha_pago.is_some()
    }

    /// No two members share a dni.
    pub open spec fn dnis_unicos(self) -> bool {
        forall|i: int, j: int|
            0 <= i < j < self.socios.len() ==> (#[trigger] self.socios[i]).dni != (
            #[trigger] self.socios[j]).dni
    }

    /// Whether `id` names a payment of the ledger that belongs to `dni` and
    /// is in the given state.
    pub open spec fn es_pago_de(self, id: u128, dni: u128, pagado: bool) -> bool {
        &&& 1 <= id <= self.pagos.len()
        &&& self.pagos[id - 1].dni_socio == dni
        &&& self.pagos[id - 1].pagado == pagado
    }

    /// What holds of the queues of the member at position `i`: the pending
    /// queue names unpaid payments of the member, oldest first; the
    /// completed queue names paid payments of the member; and the member
    /// has at least one payment.
    pub open spec fn colas_validas(self, i: int) -> bool {
        let s = self.socios[i];
        &&& forall|k: int|
            0 <= k < s.pagos_pendientes.len() ==> self.es_pago_de(
                #[trigger] s.pagos_pendientes[k],
                s.dni,
                false,
            )
        &&& forall|k: int, l: int|
            0 <= k < l < s.pagos_pendientes.len() ==> (#[trigger] s.pagos_pendientes[k]) < (
            #[trigger] s.pagos_pendientes[l])
        &&& forall|k: int|
            0 <= k < s.pagos_realizados.len() ==> self.es_pago_de(
                #[trigger] s.pagos_realizados[k],
                s.dni,
                true,
            )
        &&& s.pagos_pendientes.len() + s.pagos_realizados.len() >= 1
    }

    /// Whether the payment at position `j` of the ledger belongs to a
    /// registered member and stands in one of that member's queues.
    pub open spec fn en_cola(self, j: int) -> bool {
        match self.posicion(self.pagos[j].dni_socio) {
            Some(i) => self.socios[i].pagos_pendientes.contains((j + 1) as u128)
                || self.socios[i].pagos_realizados.contains((j + 1) as u128),
            None => false,
        }
    }

    /// Every payment of the ledger belongs to a registered member and
    /// stands in one of that member's queues. This holds of a new club and
    /// is kept by registrations, renewals and payments; only a payment
    /// issued to a dni that no member has breaks it.
    pub open spec fn sin_huerfanos(self) -> bool {
        forall|j: int| 0 <= j < self.pagos.len() ==> #[trigger] self.en_cola(j)
    }

    /// The invariant of the books. The constructor establishes it and every
    /// operation keeps it.
    pub open spec fn bien_formado(self) -> bool {
        &&& self.pagos.len() <= usize::MAX
        &&& self.ids_correlativos()
        &&& self.pagos_coherentes()
        &&& self.dnis_unicos()
        &&& forall|i: int| 0 <= i < self.socios.len() ==> #[trigger] self.colas_validas(i)
    }
}

} // verus!
