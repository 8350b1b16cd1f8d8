//! The registry: admitting members, listing them, and the price table.

use crate::categoria::{nombre_de_actividad, TipoCategoria};
use crate::club::Club;
use crate::cuenta::AccountId;
use crate::errores::ClubError;
use crate::invariante::{lema_mismos_libros, lema_posicion, lema_tras_registro_bien_formado};
use crate::modelo::PLAZO_PRIMER_PAGO;
use crate::socio::Socio;
use vstd::prelude::*;

verus! {

impl Club {
    /// Registers a member at time `ahora`.
    ///
    /// The category is read from its name: "A", "B" or "C". A member of
    /// category `A` is given every activity and one of category `C` none,
    /// whatever activity name was supplied; for category `B` the name must
    /// be that of a concrete activity. The new member stands at the end of
    /// the registry and owes one payment of the category's current price,
    /// due ten days after `ahora`.
    ///
    /// Fails with `NotAuthorized` when the caller may not act, with
    /// `MemberAlreadyExists` when the dni is taken, with `InvalidCategory`
    /// or `InvalidActivity` when a name is not understood, and with
    /// `CategoryNotPriced` when the category has no price. The checks are
    /// made in that order.
    pub fn registrar_socio(
        &mut self,
        caller: AccountId,
        ahora: u64,
        dni: u128,
        cate: String,
        act: String,
    ) -> (r: Result<bool, ClubError>)
        requires
            old(self).bien_formado(),
            ahora + PLAZO_PRIMER_PAGO <= u64::MAX,
        ensures
            final(self).bien_formado(),
            match old(self)@.rechazo_registro(caller, dni, cate@, act@) {
                Some(e) => r == Err::<bool, ClubError>(e) && final(self)@ == old(self)@,
                None => r == Ok::<bool, ClubError>(true) && final(self)@ == old(self)@.registro(
                    dni,
                    cate@,
                    act@,
                    ahora,
                ),
            },
    {
        if !self.aceptar_modificaciones(caller) {
            return Err(ClubError::NotAuthorized);
        }
        if self.existe_socio(dni) {
            return Err(ClubError::MemberAlreadyExists);
        }
        let id_pago: u128 = self.pagos.len() as u128 + 1;
        let pagos_realizados: Vec<u128> = Vec::new();
        let mut pagos_pendientes: Vec<u128> = Vec::new();
        pagos_pendientes.push(id_pago);
        let socio = match Socio::crear_socio(
            dni,
            cate,
            act,
            ahora,
            pagos_realizados,
            pagos_pendientes,
            0,
        ) {
            Ok(socio) => socio,
            Err(e) => {
                return Err(e);
            },
        };
        let costo_mensual: u128 = match self.calcular_precio(&socio.categoria) {
            Ok(costo) => costo,
            Err(e) => {
                return Err(e);
            },
        };
        proof {
            lema_posicion(self@, dni);
        }
        self.crear_pago_pendiente(dni, costo_mensual, ahora);
        self.socios.push(socio);
        proof {
            let despues = old(self)@.registro(dni, cate@, act@, ahora);
            assert(self@.socios =~= despues.socios);
            lema_tras_registro_bien_formado(
                old(self)@,
                dni,
                socio@.categoria,
                socio@.actividad,
                costo_mensual,
                ahora,
            );
        }
        Ok(true)
    }

    /// The current monthly price of a category. Fails with
    /// `CategoryNotPriced` when the table holds none.
    pub fn calcular_precio(&self, categoria: &TipoCategoria) -> (r: Result<u128, ClubError>)
        ensures
            r == match self@.precio_categoria.precio(*categoria) {
                Some(precio) => Ok::<u128, ClubError>(precio),
                None => Err::<u128, ClubError>(ClubError::CategoryNotPriced),
            },
    {
        match self.precio_categoria.get(*categoria) {
            Some(precio) => Ok(precio),
            None => Err(ClubError::CategoryNotPriced),
        }
    }

    /// Sets the price of a category for a caller who may act.
    fn fijar_precio(
        &mut self,
        caller: AccountId,
        categoria: TipoCategoria,
        monto: u128,
    ) -> (r: Result<(), ClubError>)
        ensures
            old(self)@.aceptar_modificaciones(caller) ==> r is Ok && final(self)@ == old(
                self,
            )@.con_precio(categoria, monto),
            !old(self)@.aceptar_modificaciones(caller) ==> r == Err::<(), ClubError>(
                ClubError::NotAuthorized,
            ) && final(self)@ == old(self)@,
            old(self).bien_formado() ==> final(self).bien_formado(),
    {
        if !self.aceptar_modificaciones(caller) {
            return Err(ClubError::NotAuthorized);
        }
        self.precio_categoria.insert(categoria, monto);
        proof {
            if old(self).bien_formado() {
                lema_mismos_libros(old(self)@, self@);
            }
        }
        Ok(())
    }

    /// Reads the price of a category for a caller who may act.
    fn leer_precio(
        &self,
        caller: AccountId,
        categoria: TipoCategoria,
    ) -> (r: Result<u128, ClubError>)
        ensures
            r == self@.precio_leido(caller, categoria),
    {
        if !self.aceptar_modificaciones(caller) {
            return Err(ClubError::NotAuthorized);
        }
        self.calcular_precio(&categoria)
    }

    /// Sets the monthly price of category `A`, whatever it was. Fails with
    /// `NotAuthorized` when the caller may not act.
    pub fn set_categoria_a(&mut self, caller: AccountId, monto: u128) -> (r: Result<(), ClubError>)
        ensures
            old(self)@.aceptar_modificaciones(caller) ==> r is Ok && final(self)@ == old(
                self,
            )@.con_precio(TipoCategoria::A, monto),
            !old(self)@.aceptar_modificaciones(caller) ==> r == Err::<(), ClubError>(
                ClubError::NotAuthorized,
            ) && final(self)@ == old(self)@,
            old(self).bien_formado() ==> final(self).bien_formado(),
    {
        self.fijar_precio(caller, TipoCategoria::A, monto)
    }

    /// Sets the monthly price of category `B`, whatever it was. Fails with
    /// `NotAuthorized` when the caller may not act.
    pub fn set_categoria_b(&mut self, caller: AccountId, monto: u128) -> (r: Result<(), ClubError>)
        ensures
            old(self)@.aceptar_modificaciones(caller) ==> r is Ok && final(self)@ == old(
                self,
            )@.con_precio(TipoCategoria::B, monto),
            !old(self)@.aceptar_modificaciones(caller) ==> r == Err::<(), ClubError>(
                ClubError::NotAuthorized,
            ) && final(self)@ == old(self)@,
            old(self).bien_formado() ==> final(self).bien_formado(),
    {
        self.fijar_precio(caller, TipoCategoria::B, monto)
    }

    /// Sets the monthly price of category `C`, whatever it was. Fails with
    /// `NotAuthorized` when the caller may not act.
    pub fn set_categoria_c(&mut self, caller: AccountId, monto: u128) -> (r: Result<(), ClubError>)
        ensures
            old(self)@.aceptar_modificaciones(caller) ==> r is Ok && final(self)@ == old(
                self,
            )@.con_precio(TipoCategoria::C, monto),
            !old(self)@.aceptar_modificaciones(caller) ==> r == Err::<(), ClubError>(
                ClubError::NotAuthorized,
            ) && final(self)@ == old(self)@,
            old(self).bien_formado() ==> final(self).bien_formado(),
    {
        self.fijar_precio(caller, TipoCategoria::C, monto)
    }

    /// The monthly price of category `A`. Fails with `NotAuthorized` when
    /// the caller may not act and with `CategoryNotPriced` when the table
    /// holds no price for the category.
    pub fn get_categoria_a(&self, caller: AccountId) -> (r: Result<u128, ClubError>)
        ensures
            r == self@.precio_leido(caller, TipoCategoria::A),
    {
        self.leer_precio(caller, TipoCategoria::A)
    }

    /// The monthly price of category `B`. Fails with `NotAuthorized` when
    /// the caller may not act and with `CategoryNotPriced` when the table
    /// holds no price for the category.
    pub fn get_categoria_b(&self, caller: AccountId) -> (r: Result<u128, ClubError>)
        ensures
            r == self@.precio_leido(caller, TipoCategoria::B),
    {
        self.leer_precio(caller, TipoCategoria::B)
    }

    /// The monthly price of category `C`. Fails with `NotAuthorized` when
    /// the caller may not act and with `CategoryNotPriced` when the table
    /// holds no price for the category.
    pub fn get_categoria_c(&self, caller: AccountId) -> (r: Result<u128, ClubError>)
        ensures
            r == self@.precio_leido(caller, TipoCategoria::C),
    {
        self.leer_precio(caller, TipoCategoria::C)
    }

    /// The dni of every member, in order of registration, for a caller who
    /// may act; for any other caller the list is empty, and that is no
    /// error.
    pub fn get_socios(&self, caller: AccountId) -> (vec: Vec<u128>)
        ensures
            vec@ == if self@.aceptar_modificaciones(caller) {
                self@.dnis()
            } else {
                Seq::<u128>::empty()
            },
    {
        let mut vec: Vec<u128> = Vec::new();
        if self.aceptar_modificaciones(caller) {
            let mut i: usize = 0;
            while i < self.socios.len()
                invariant
                    i <= self.socios.len(),
                    vec@ == self@.dnis().take(i as int),
                decreases self.socios.len() - i,
            {
                vec.push(self.socios[i].dni);
                i += 1;
            }
        }
        vec
    }

    /// The names of the category and of the activity of the member at
    /// position `i` of the registry. A member without an activity is
    /// reported with the activity "NADA".
    ///
    /// Fails with `NotAuthorized` when the caller may not act and with
    /// `MemberNotFound` when the registry has no such position.
    pub fn get_info_socio(
        &self,
        caller: AccountId,
        i: u128,
    ) -> (r: Result<(String, String), ClubError>)
        ensures
            !self@.aceptar_modificaciones(caller) ==> r == Err::<(String, String), ClubError>(
                ClubError::NotAuthorized,
            ),
            self@.aceptar_modificaciones(caller) && i >= self@.socios.len() ==> r == Err::<
                (String, String),
                ClubError,
            >(ClubError::MemberNotFound),
            self@.aceptar_modificaciones(caller) && i < self@.socios.len() ==> {
                &&& r is Ok
                &&& r->Ok_0.0@ == self@.socios[i as int].categoria.spec_nombre()
                &&& r->Ok_0.1@ == nombre_de_actividad(self@.socios[i as int].actividad)
            },
    {
        if !self.aceptar_modificaciones(caller) {
            return Err(ClubError::NotAuthorized);
        }
        if i >= self.socios.len() as u128 {
            return Err(ClubError::MemberNotFound);
        }
        let socio = &self.socios[i as usize];
        let cate = socio.categoria.nombre();
        let act = match &socio.actividad {
            Some(a) => a.nombre(),
            None => "NADA".to_string(),
        };
        Ok((cate, act))
    }
}

} // verus!
