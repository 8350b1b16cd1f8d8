//! The club: its registry of members, its ledger of payments, its prices,
//! and the list of those who may change them.

use crate::categoria::TipoCategoria;
use crate::cuenta::AccountId;
use crate::errores::ClubError;
use crate::invariante::{lema_mismos_libros, lema_posicion};
use crate::modelo::ClubView;
use crate::pago::Pago;
use crate::precios::TablaPrecios;
use crate::socio::Socio;
use vstd::prelude::*;

verus! {

/// The books of the club.
///
/// Who calls and what time it is are not known to the club: every operation
/// that depends on them takes them as arguments.
pub struct Club {
    pub socios: Vec<Socio>,
    pub pagos: Vec<Pago>,
    pub precio_categoria: TablaPrecios,
    pub owner: Option<AccountId>,
    pub direcciones: Vec<AccountId>,
    /// While on, only the owner and the listed addresses may act.
    pub politica: bool,
    /// The percentage taken off a renewal that merits the discount.
    pub descuento: u128,
    /// How many recent payments must count for a renewal to merit it.
    pub cantidad_meses: u128,
}

impl View for Club {
    type V = ClubView;

    open spec fn view(&self) -> ClubView {
        ClubView {
            socios: self.socios@.map_values(|s: Socio| s@),
            pagos: self.pagos@,
            precio_categoria: self.precio_categoria,
            owner: self.owner,
            direcciones: self.direcciones@,
            politica: self.politica,
            descuento: self.descuento,
            cantidad_meses: self.cantidad_meses,
        }
    }
}

impl Club {
    /// The invariant of the books; see [`ClubView::bien_formado`].
    pub open spec fn bien_formado(&self) -> bool {
        self@.bien_formado()
    }

    /// A club without members or payments, owned by whoever creates it,
    /// with the policy on, a discount of 30 % after 3 qualifying payments,
    /// and prices of 5000, 3000 and 2000 for the categories A, B and C.
    pub fn new(caller: AccountId) -> (club: Club)
        ensures
            club.bien_formado(),
            club@.sin_huerfanos(),
            club@ == (ClubView {
                socios: Seq::empty(),
                pagos: Seq::empty(),
                precio_categoria: TablaPrecios {
                    a: Some(5000u128),
                    b: Some(3000u128),
                    c: Some(2000u128),
                },
                owner: Some(caller),
                direcciones: Seq::empty(),
                politica: true,
                descuento: 30,
                cantidad_meses: 3,
            }),
    {
        let mut precio_categoria = TablaPrecios::new();
        precio_categoria.insert(TipoCategoria::A, 5000);
        precio_categoria.insert(TipoCategoria::B, 3000);
        precio_categoria.insert(TipoCategoria::C, 2000);
        let mut club = Club {
            socios: Vec::new(),
            pagos: Vec::new(),
            precio_categoria,
            owner: None,
            direcciones: Vec::new(),
            politica: true,
            descuento: 30,
            cantidad_meses: 3,
        };
        club.guardar_firma(caller);
        assert(club@.socios =~= Seq::empty());
        club
    }

    /// Makes the caller the owner of the club.
    pub fn guardar_firma(&mut self, caller: AccountId)
        ensures
            final(self)@ == (ClubView { owner: Some(caller), ..old(self)@ }),
            old(self).bien_formado() ==> final(self).bien_formado(),
    {
        self.owner = Some(caller);
        proof {
            if old(self).bien_formado() {
                lema_mismos_libros(old(self)@, self@);
            }
        }
    }

    /// Whether the caller owns the club.
    pub fn es_owner(&self, caller: AccountId) -> (r: bool)
        ensures
            r == self@.es_owner(caller),
    {
        match self.owner {
            Some(owner) => owner == caller,
            None => false,
        }
    }

    /// Whether the address is on the list of authorized addresses, and
    /// where it first stands there.
    fn buscar_direccion(&self, clave: AccountId) -> (r: Option<usize>)
        ensures
            r is Some == self.direcciones@.contains(clave),
            r matches Some(i) ==> i < self.direcciones.len() && self.direcciones@.index_of_first(
                clave,
            ) == Some(i as int),
    {
        let mut i: usize = 0;
        while i < self.direcciones.len()
            invariant
                i <= self.direcciones.len(),
                forall|j: int| 0 <= j < i ==> self.direcciones@[j] != clave,
            decreases self.direcciones.len() - i,
        {
            if self.direcciones[i] == clave {
                proof {
                    self.direcciones@.index_of_first_ensures(clave);
                }
                return Some(i);
            }
            i += 1;
        }
        proof {
            self.direcciones@.index_of_first_ensures(clave);
        }
        None
    }

    /// Whether the caller is the owner or on the list of authorized
    /// addresses.
    pub fn esta_permitido(&self, caller: AccountId) -> (r: bool)
        ensures
            r == self@.esta_permitido(caller),
    {
        if self.buscar_direccion(caller).is_some() {
            true
        } else {
            self.es_owner(caller)
        }
    }

    /// Hands the club over to `clave` if the caller owns it; any other
    /// caller changes nothing.
    pub fn set_owner(&mut self, caller: AccountId, clave: AccountId)
        ensures
            final(self)@ == if old(self)@.es_owner(caller) {
                ClubView { owner: Some(clave), ..old(self)@ }
            } else {
                old(self)@
            },
            old(self).bien_formado() ==> final(self).bien_formado(),
    {
        if self.es_owner(caller) {
            self.owner = Some(clave);
        }
        proof {
            if old(self).bien_formado() {
                lema_mismos_libros(old(self)@, self@);
            }
        }
    }

    /// Turns the policy off if it is on and on if it is off, if the caller
    /// owns the club; any other caller changes nothing.
    pub fn cambiar_politica(&mut self, caller: AccountId)
        ensures
            final(self)@ == if old(self)@.es_owner(caller) {
                ClubView { politica: !old(self)@.politica, ..old(self)@ }
            } else {
                old(self)@
            },
            old(self).bien_formado() ==> final(self).bien_formado(),
    {
        if self.es_owner(caller) {
            self.politica = !self.politica;
        }
        proof {
            if old(self).bien_formado() {
                lema_mismos_libros(old(self)@, self@);
            }
        }
    }

    /// Puts an address at the end of the list of authorized addresses.
    ///
    /// Fails with `NotAuthorized` when the caller does not own the club,
    /// and with `AddressAlreadyListed` when the address is on the list.
    pub fn agregar_direccion(
        &mut self,
        caller: AccountId,
        clave: AccountId,
    ) -> (r: Result<bool, ClubError>)
        ensures
            r == if !old(self)@.es_owner(caller) {
                Err::<bool, ClubError>(ClubError::NotAuthorized)
            } else if old(self)@.direcciones.contains(clave) {
                Err::<bool, ClubError>(ClubError::AddressAlreadyListed)
            } else {
                Ok::<bool, ClubError>(true)
            },
            final(self)@ == if r is Ok {
                ClubView { direcciones: old(self)@.direcciones.push(clave), ..old(self)@ }
            } else {
                old(self)@
            },
            old(self).bien_formado() ==> final(self).bien_formado(),
    {
        if !self.es_owner(caller) {
            return Err(ClubError::NotAuthorized);
        }
        if self.buscar_direccion(clave).is_some() {
            return Err(ClubError::AddressAlreadyListed);
        }
        self.direcciones.push(clave);
        proof {
            if old(self).bien_formado() {
                lema_mismos_libros(old(self)@, self@);
            }
        }
        Ok(true)
    }

    /// Takes an address off the list of authorized addresses, where it
    /// first stands.
    ///
    /// Fails with `NotAuthorized` when the caller does not own the club,
    /// and with `AddressNotListed` when the address is not on the list.
    pub fn eliminar_direccion(
        &mut self,
        caller: AccountId,
        clave: AccountId,
    ) -> (r: Result<bool, ClubError>)
        ensures
            r == if !old(self)@.es_owner(caller) {
                Err::<bool, ClubError>(ClubError::NotAuthorized)
            } else if !old(self)@.direcciones.contains(clave) {
                Err::<bool, ClubError>(ClubError::AddressNotListed)
            } else {
                Ok::<bool, ClubError>(true)
            },
            final(self)@ == if r is Ok {
                ClubView { direcciones: old(self)@.direcciones.remove_value(clave), ..old(self)@ }
            } else {
                old(self)@
            },
            old(self).bien_formado() ==> final(self).bien_formado(),
    {
        if !self.es_owner(caller) {
            return Err(ClubError::NotAuthorized);
        }
        match self.buscar_direccion(clave) {
            Some(i) => {
                self.direcciones.remove(i);
                proof {
                    if old(self).bien_formado() {
                        lema_mismos_libros(old(self)@, self@);
                    }
                }
                Ok(true)
            },
            None => Err(ClubError::AddressNotListed),
        }
    }

    /// Whether the caller may act on the books.
    pub fn aceptar_modificaciones(&self, caller: AccountId) -> (r: bool)
        ensures
            r == self@.aceptar_modificaciones(caller),
    {
        if self.politica {
            self.esta_permitido(caller)
        } else {
            true
        }
    }

    /// The position of the member with the given dni, if one is registered.
    /// The position is that of the first such member; it is good until the
    /// registry changes.
    pub fn buscar_socio(&self, dni_socio: u128) -> (r: Option<usize>)
        ensures
            match r {
                Some(i) => {
                    &&& self@.posicion(dni_socio) == Some(i as int)
                    &&& i < self.socios.len()
                    &&& self@.socios[i as int].dni == dni_socio
                    &&& forall|j: int| 0 <= j < i ==> self@.socios[j].dni != dni_socio
                },
                None => {
                    &&& self@.posicion(dni_socio) is None
                    &&& !self@.existe_socio(dni_socio)
                },
            },
    {
        let mut i: usize = 0;
        while i < self.socios.len()
            invariant
                i <= self.socios.len(),
                forall|j: int| 0 <= j < i ==> self@.socios[j].dni != dni_socio,
            decreases self.socios.len() - i,
        {
            if self.socios[i].dni == dni_socio {
                proof {
                    lema_posicion(self@, dni_socio);
                }
                return Some(i);
            }
            i += 1;
        }
        proof {
            lema_posicion(self@, dni_socio);
        }
        None
    }

    /// Whether a member with the given dni is registered.
    pub fn existe_socio(&self, dni: u128) -> (r: bool)
        ensures
            r == self@.existe_socio(dni),
    {
        proof {
            lema_posicion(self@, dni);
        }
        self.buscar_socio(dni).is_some()
    }
}

} // verus!
