//! The ledger: issuing payments, collecting them, and the renewal discount.

use crate::categoria::TipoCategoria;
use crate::club::Club;
use crate::cuenta::AccountId;
use crate::errores::ClubError;
use crate::invariante::{
    lema_con_pago_bien_formado, lema_filtro_push, lema_mismos_libros, lema_pagos_de_push,
    lema_posicion, lema_socio_tiene_pagos, lema_tras_cobro_bien_formado,
};
use crate::modelo::{
    calificados, costos, costos_recientes, pagos_de, porcentaje, resumenes, ultimos, ClubView,
    PLAZO_PRIMER_PAGO, PLAZO_RENOVACION,
};
use crate::pago::Pago;
use vstd::prelude::*;

verus! {

/// What the club tells about the payments of one member, or about its most
/// recent payments when asked about no member in particular.
#[derive(Debug, PartialEq, Eq)]
pub struct Adicional {
    pub dni: Option<u128>,
    pub cate: Option<TipoCategoria>,
    /// The amounts of the payments.
    pub p: Vec<u128>,
}

impl Club {
    /// Issues a payment: appends it to the ledger under the next id and,
    /// where its member is registered, puts it at the back of the member's
    /// pending queue. Returns the id.
    fn asentar_pago(
        &mut self,
        dni_socio: u128,
        costo: u128,
        vencimiento: u64,
        descuento: bool,
    ) -> (id: u128)
        requires
            old(self).bien_formado(),
        ensures
            final(self).bien_formado(),
            final(self)@ == old(self)@.con_pago(dni_socio, costo, vencimiento, descuento),
            id == old(self)@.siguiente_id(),
            id == final(self)@.pagos.len(),
    {
        let id: u128 = self.pagos.len() as u128 + 1;
        let pago = Pago::crear_pago(dni_socio, id, costo, vencimiento, None, false, descuento);
        let posicion = self.buscar_socio(dni_socio);
        self.pagos.push(pago);
        // The length of the ledger is a `usize` after the push as before it.
        assert(self.pagos.len() <= usize::MAX);
        if let Some(i) = posicion {
            proof {
                lema_posicion(old(self)@, dni_socio);
            }
            self.socios[i].pagos_pendientes.push(id);
            assert(self@.socios =~= old(self)@.socios.update(
                i as int,
                old(self)@.socios[i as int].con_pendiente(id),
            ));
        }
        proof {
            lema_con_pago_bien_formado(old(self)@, dni_socio, costo, vencimiento, descuento);
        }
        id
    }

    /// Issues the first payment of a member: for the given amount, due ten
    /// days after `fecha_registro`. The payment gets the next id, which is
    /// its position in the ledger counted from 1, and joins the pending
    /// queue of the member where one with that dni is registered. Returns
    /// the id.
    pub fn crear_pago_pendiente(
        &mut self,
        dni_socio: u128,
        costo: u128,
        fecha_registro: u64,
    ) -> (id: u128)
        requires
            old(self).bien_formado(),
            fecha_registro + PLAZO_PRIMER_PAGO <= u64::MAX,
        ensures
            final(self).bien_formado(),
            final(self)@ == old(self)@.con_pago(
                dni_socio,
                costo,
                (fecha_registro + PLAZO_PRIMER_PAGO) as u64,
                false,
            ),
            id == final(self)@.pagos.len(),
    {
        let fecha_vencimiento: u64 = fecha_registro + PLAZO_PRIMER_PAGO;
        self.asentar_pago(dni_socio, costo, fecha_vencimiento, false)
    }

    /// The payments of the ledger that belong to a member, in ledger order.
    fn pagos_del_socio(&self, dni: u128) -> (mios: Vec<Pago>)
        ensures
            mios@ == pagos_de(self.pagos@, dni),
    {
        let mut mios: Vec<Pago> = Vec::new();
        let mut j: usize = 0;
        while j < self.pagos.len()
            invariant
                j <= self.pagos.len(),
                mios@ == pagos_de(self.pagos@.take(j as int), dni),
            decreases self.pagos.len() - j,
        {
            proof {
                lema_pagos_de_push(self.pagos@.take(j as int), self.pagos@[j as int], dni);
                assert(self.pagos@.take(j as int).push(self.pagos@[j as int])
                    =~= self.pagos@.take(j + 1));
            }
            if self.pagos[j].dni_socio == dni {
                mios.push(self.pagos[j]);
            }
            j += 1;
        }
        assert(self.pagos@.take(self.pagos.len() as int) =~= self.pagos@);
        mios
    }

    /// The club's percentage of an amount, rounded down; nothing where the
    /// product of amount and percentage does not fit in 128 bits.
    pub fn descuento_otorgado(&self, monto: u128) -> (r: Option<u128>)
        ensures
            r == porcentaje(monto, self.descuento),
    {
        match monto.checked_mul(self.descuento) {
            Some(producto) => Some(producto / 100),
            None => None,
        }
    }

    /// Whether the member's last `cantidad_meses` payments all count
    /// towards a discount.
    fn merece_descuento(&self, mios: &Vec<Pago>, dni: u128) -> (r: bool)
        requires
            mios@ == pagos_de(self.pagos@, dni),
        ensures
            r == self@.merece_descuento(dni),
    {
        let n: usize = mios.len();
        let k: usize = if self.cantidad_meses >= n as u128 {
            n
        } else {
            self.cantidad_meses as usize
        };
        let ghost recientes = ultimos(mios@, self.cantidad_meses as nat);
        assert(recientes =~= mios@.subrange(n - k, n as int));
        let mut buenos: usize = 0;
        let mut j: usize = n - k;
        while j < n
            invariant
                n == mios.len(),
                k <= n,
                n - k <= j <= n,
                buenos == calificados(mios@.subrange(n - k, j as int)).len(),
                buenos <= j - (n - k),
            decreases n - j,
        {
            proof {
                lema_filtro_push(
                    mios@.subrange(n - k, j as int),
                    mios@[j as int],
                    |p: Pago| p.califica(),
                );
                assert(mios@.subrange(n - k, j as int).push(mios@[j as int]) =~= mios@.subrange(
                    n - k,
                    j + 1,
                ));
            }
            if !mios[j].esta_vencido() && !mios[j].tiene_descuento {
                buenos += 1;
            }
            j += 1;
        }
        buenos as u128 == self.cantidad_meses
    }

    /// Issues the next payment of a member.
    ///
    /// The amount is the current price of the member's category, reduced by
    /// the club's percentage where each of the member's last
    /// `cantidad_meses` payments was neither late nor itself discounted;
    /// where the reduction cannot be computed, the full price is charged.
    /// The payment falls due thirty days after the member's most recent
    /// one and joins the back of the member's pending queue.
    ///
    /// Fails with `NotAuthorized` when the caller may not act, with
    /// `MemberNotFound` when no member has the dni, and with
    /// `CategoryNotPriced` when the member's category has no price.
    ///
    /// The new due date must be a time stamp: the member's last due date
    /// must lie at least thirty days before the end of the 64-bit range.
    pub fn crear_pagos(
        &mut self,
        caller: AccountId,
        dni_socio: u128,
    ) -> (r: Result<bool, ClubError>)
        requires
            old(self).bien_formado(),
            old(self)@.existe_socio(dni_socio) ==> old(self)@.ultimo_vencimiento(dni_socio)
                + PLAZO_RENOVACION <= u64::MAX,
        ensures
            final(self).bien_formado(),
            match old(self)@.rechazo_renovacion(caller, dni_socio) {
                Some(e) => r == Err::<bool, ClubError>(e) && final(self)@ == old(self)@,
                None => r == Ok::<bool, ClubError>(true) && final(self)@ == old(
                    self,
                )@.tras_renovacion(dni_socio),
            },
    {
        if !self.aceptar_modificaciones(caller) {
            return Err(ClubError::NotAuthorized);
        }
        let p: usize = match self.buscar_socio(dni_socio) {
            Some(p) => p,
            None => {
                return Err(ClubError::MemberNotFound);
            },
        };
        proof {
            lema_posicion(self@, dni_socio);
            lema_socio_tiene_pagos(self@, p as int);
        }
        let base: u128 = match self.precio_categoria.get(self.socios[p].categoria) {
            Some(monto) => monto,
            None => {
                return Err(ClubError::CategoryNotPriced);
            },
        };
        let mios = self.pagos_del_socio(dni_socio);
        let mut costo: u128 = base;
        let mut rebajado: bool = false;
        if self.merece_descuento(&mios, dni_socio) {
            if let Some(d) = self.descuento_otorgado(base) {
                if let Some(neto) = base.checked_sub(d) {
                    costo = neto;
                    rebajado = true;
                }
            }
        }
        let fecha_vencimiento: u64 = mios[mios.len() - 1].fecha_vencimiento + PLAZO_RENOVACION;
        self.asentar_pago(dni_socio, costo, fecha_vencimiento, rebajado);
        Ok(true)
    }

    /// The id at the head of the pending queue of the member at position
    /// `i`, if the member owes anything.
    pub fn primero_pagos_pendientes(&self, i: usize) -> (r: Option<u128>)
        requires
            i < self.socios.len(),
        ensures
            r == if self@.socios[i as int].pagos_pendientes.len() > 0 {
                Some(self@.socios[i as int].pagos_pendientes[0])
            } else {
                None
            },
    {
        if self.socios[i].pagos_pendientes.len() > 0 {
            Some(self.socios[i].pagos_pendientes[0])
        } else {
            None
        }
    }

    /// Records that a member has paid, at time `ahora`, the payment at the
    /// head of the pending queue.
    ///
    /// The amount tendered must be exactly the amount of that payment:
    /// nothing less and nothing more is taken. The payment is then marked
    /// paid at `ahora`, leaves the pending queue and joins the back of the
    /// member's completed payments. A head that is already marked paid is
    /// left as it is.
    ///
    /// Fails with `NotAuthorized` when the caller may not act, with
    /// `MemberNotFound` when no member has the dni, with `NoPendingPayment`
    /// when the member owes nothing, and with `AmountMismatch` when the
    /// amount is not the one owed.
    pub fn registro_pago(
        &mut self,
        caller: AccountId,
        ahora: u64,
        dni_socio: u128,
        monto: u128,
    ) -> (r: Result<(), ClubError>)
        requires
            old(self).bien_formado(),
        ensures
            final(self).bien_formado(),
            match old(self)@.rechazo_cobro(caller, dni_socio, monto) {
                Some(e) => r == Err::<(), ClubError>(e) && final(self)@ == old(self)@,
                None => r == Ok::<(), ClubError>(()) && final(self)@ == old(self)@.cobro(
                    dni_socio,
                    ahora,
                ),
            },
    {
        if !self.aceptar_modificaciones(caller) {
            return Err(ClubError::NotAuthorized);
        }
        let i: usize = match self.buscar_socio(dni_socio) {
            Some(i) => i,
            None => {
                return Err(ClubError::MemberNotFound);
            },
        };
        proof {
            lema_posicion(self@, dni_socio);
        }
        let id: u128 = match self.primero_pagos_pendientes(i) {
            Some(id) => id,
            None => {
                return Err(ClubError::NoPendingPayment);
            },
        };
        proof {
            lema_tras_cobro_bien_formado(self@, i as int, ahora);
        }
        let pos: usize = (id - 1) as usize;
        if self.pagos[pos].pagado {
            return Ok(());
        }
        if self.pagos[pos].costo != monto {
            return Err(ClubError::AmountMismatch);
        }
        self.socios[i].pagos_pendientes.remove(0);
        self.pagos[pos].pagado = true;
        self.pagos[pos].fecha_pago = Some(ahora);
        self.socios[i].pagos_realizados.push(id);
        proof {
            assert(self@.socios =~= old(self)@.socios.update(
                i as int,
                old(self)@.socios[i as int].con_cabeza_pagada(),
            ));
            assert(self@.pagos =~= old(self)@.cobro(dni_socio, ahora).pagos);
        }
        Ok(())
    }

    /// The payments of a member: for each, in ledger order, its id, its
    /// due date, whether it is paid, and its amount.
    ///
    /// Fails with `NotAuthorized` when the caller may not act and with
    /// `MemberNotFound` when no member has the dni.
    pub fn get_pago(
        &self,
        caller: AccountId,
        dni: u128,
    ) -> (r: Result<Vec<(u128, u64, bool, u128)>, ClubError>)
        ensures
            !self@.aceptar_modificaciones(caller) ==> r == Err::<
                Vec<(u128, u64, bool, u128)>,
                ClubError,
            >(ClubError::NotAuthorized),
            self@.aceptar_modificaciones(caller) && !self@.existe_socio(dni) ==> r == Err::<
                Vec<(u128, u64, bool, u128)>,
                ClubError,
            >(ClubError::MemberNotFound),
            self@.aceptar_modificaciones(caller) && self@.existe_socio(dni) ==> r is Ok && r->Ok_0@
                == resumenes(pagos_de(self.pagos@, dni)),
    {
        if !self.aceptar_modificaciones(caller) {
            return Err(ClubError::NotAuthorized);
        }
        if !self.existe_socio(dni) {
            return Err(ClubError::MemberNotFound);
        }
        let mios = self.pagos_del_socio(dni);
        let mut vec: Vec<(u128, u64, bool, u128)> = Vec::new();
        let mut j: usize = 0;
        while j < mios.len()
            invariant
                j <= mios.len(),
                vec@ == resumenes(mios@.take(j as int)),
            decreases mios.len() - j,
        {
            let pago = mios[j];
            vec.push((pago.id, pago.fecha_vencimiento, pago.pagado, pago.costo));
            j += 1;
        }
        Ok(vec)
    }

    /// The category of a member and the amounts of the member's payments
    /// in ledger order; or, when asked about no member, the amounts of the
    /// thirty most recent payments of the ledger, the latest first.
    ///
    /// Fails with `NotAuthorized` when the caller may not act and with
    /// `MemberNotFound` when a dni is given that no member has.
    pub fn consultar_pagos(
        &self,
        caller: AccountId,
        dni_socio: Option<u128>,
    ) -> (r: Result<Adicional, ClubError>)
        ensures
            !self@.aceptar_modificaciones(caller) ==> r == Err::<Adicional, ClubError>(
                ClubError::NotAuthorized,
            ),
            self@.aceptar_modificaciones(caller) ==> match dni_socio {
                Some(id) => match self@.posicion(id) {
                    Some(pos) => {
                        &&& r is Ok
                        &&& r->Ok_0.dni == Some(id)
                        &&& r->Ok_0.cate == Some(self@.socios[pos].categoria)
                        &&& r->Ok_0.p@ == costos(pagos_de(self.pagos@, id))
                    },
                    None => r == Err::<Adicional, ClubError>(ClubError::MemberNotFound),
                },
                None => {
                    &&& r is Ok
                    &&& r->Ok_0.dni is None
                    &&& r->Ok_0.cate is None
                    &&& r->Ok_0.p@ == costos_recientes(self.pagos@, 30)
                },
            },
    {
        if !self.aceptar_modificaciones(caller) {
            return Err(ClubError::NotAuthorized);
        }
        let mut p: Vec<u128> = Vec::new();
        match dni_socio {
            Some(id) => {
                let pos: usize = match self.buscar_socio(id) {
                    Some(pos) => pos,
                    None => {
                        return Err(ClubError::MemberNotFound);
                    },
                };
                let cate = Some(self.socios[pos].categoria);
                let mios = self.pagos_del_socio(id);
                let mut j: usize = 0;
                while j < mios.len()
                    invariant
                        j <= mios.len(),
                        p@ == costos(mios@.take(j as int)),
                    decreases mios.len() - j,
                {
                    p.push(mios[j].costo);
                    j += 1;
                }
                Ok(Adicional { dni: Some(id), cate, p })
            },
            None => {
                let n: usize = self.pagos.len();
                let k: usize = if n < 30 {
                    n
                } else {
                    30
                };
                let mut j: usize = 0;
                while j < k
                    invariant
                        n == self.pagos.len(),
                        k <= n,
                        j <= k,
                        p@.len() == j,
                        forall|l: int| 0 <= l < j ==> p@[l] == self.pagos@[n - 1 - l].costo,
                    decreases k - j,
                {
                    p.push(self.pagos[n - 1 - j].costo);
                    j += 1;
                }
                Ok(Adicional { dni: None, cate: None, p })
            },
        }
    }

    /// Sets the percentage taken off a renewal that merits the discount.
    /// Fails with `NotAuthorized` when the caller may not act.
    pub fn set_descuento(&mut self, caller: AccountId, num: u128) -> (r: Result<(), ClubError>)
        ensures
            old(self)@.aceptar_modificaciones(caller) ==> r is Ok && final(self)@ == (ClubView {
                descuento: num,
                ..old(self)@
            }),
            !old(self)@.aceptar_modificaciones(caller) ==> r == Err::<(), ClubError>(
                ClubError::NotAuthorized,
            ) && final(self)@ == old(self)@,
            old(self).bien_formado() ==> final(self).bien_formado(),
    {
        if !self.aceptar_modificaciones(caller) {
            return Err(ClubError::NotAuthorized);
        }
        self.descuento = num;
        proof {
            if old(self).bien_formado() {
                lema_mismos_libros(old(self)@, self@);
            }
        }
        Ok(())
    }

    /// Sets how many recent payments must count towards the discount for a
    /// renewal to merit it. Fails with `NotAuthorized` when the caller may
    /// not act.
    pub fn set_cantidad_meses(&mut self, caller: AccountId, num: u128) -> (r: Result<(), ClubError>)
        ensures
            old(self)@.aceptar_modificaciones(caller) ==> r is Ok && final(self)@ == (ClubView {
                cantidad_meses: num,
                ..old(self)@
            }),
            !old(self)@.aceptar_modificaciones(caller) ==> r == Err::<(), ClubError>(
                ClubError::NotAuthorized,
            ) && final(self)@ == old(self)@,
            old(self).bien_formado() ==> final(self).bien_formado(),
    {
        if !self.aceptar_modificaciones(caller) {
            return Err(ClubError::NotAuthorized);
        }
        self.cantidad_meses = num;
        proof {
            if old(self).bien_formado() {
                lema_mismos_libros(old(self)@, self@);
            }
        }
        Ok(())
    }
}

} // verus!
