//! A registered member.

use crate::categoria::{actividad_de_nombre, categoria_de_nombre, Actividad, TipoCategoria};
use crate::errores::ClubError;
use vstd::prelude::*;

verus! {

/// A member of the club.
#[derive(Debug, PartialEq, Eq)]
pub struct Socio {
    pub dni: u128,
    pub categoria: TipoCategoria,
    pub actividad: Option<Actividad>,
    pub fecha_registro: u64,
    /// Ids of the payments the member has made, in the order made.
    pub pagos_realizados: Vec<u128>,
    /// Ids of the payments the member owes, oldest first.
    pub pagos_pendientes: Vec<u128>,
    /// Informative counter; nothing is decided by it.
    pub pagos_sin_atrasos: u128,
}

/// The mathematical value of a [`Socio`].
pub struct SocioView {
    pub dni: u128,
    pub categoria: TipoCategoria,
    pub actividad: Option<Actividad>,
    pub fecha_registro: u64,
    pub pagos_realizados: Seq<u128>,
    pub pagos_pendientes: Seq<u128>,
    pub pagos_sin_atrasos: u128,
}

impl View for Socio {
    type V = SocioView;

    open spec fn view(&self) -> SocioView {
        SocioView {
            dni: self.dni,
            categoria: self.categoria,
            actividad: self.actividad,
            fecha_registro: self.fecha_registro,
            pagos_realizados: self.pagos_realizados@,
            pagos_pendientes: self.pagos_pendientes@,
            pagos_sin_atrasos: self.pagos_sin_atrasos,
        }
    }
}

impl SocioView {
    /// The member with one more payment at the back of the pending queue.
    pub open spec fn con_pendiente(self, id: u128) -> SocioView {
        SocioView { pagos_pendientes: self.pagos_pendientes.push(id), ..self }
    }

    /// The member once the head of the pending queue has been paid.
    pub open spec fn con_cabeza_pagada(self) -> SocioView {
        SocioView {
            pagos_pendientes: self.pagos_pendientes.drop_first(),
            pagos_realizados: self.pagos_realizados.push(self.pagos_pendientes[0]),
            ..self
        }
    }
}

/// The activity a new member is registered with, or the reason the
/// registration is refused: category `A` carries `TODOS` and category `C`
/// nothing, whatever name was supplied; category `B` carries the concrete
/// activity that the name denotes.
pub open spec fn actividad_asignada(categoria: TipoCategoria, act: Seq<char>) -> Result<
    Option<Actividad>,
    ClubError,
> {
    match categoria {
        TipoCategoria::A => Ok(Some(Actividad::TODOS)),
        TipoCategoria::B => match actividad_de_nombre(act) {
            Some(a) => Ok(Some(a)),
            None => Err(ClubError::InvalidActivity),
        },
        TipoCategoria::C => Ok(None),
    }
}

/// What `Socio::crear_socio` returns for the given names, the lists being
/// taken as they are.
pub open spec fn socio_creado(
    dni: u128,
    cate: Seq<char>,
    act: Seq<char>,
    fecha_registro: u64,
    pagos_realizados: Seq<u128>,
    pagos_pendientes: Seq<u128>,
    pagos_sin_atrasos: u128,
) -> Result<SocioView, ClubError> {
    match categoria_de_nombre(cate) {
        None => Err(ClubError::InvalidCategory),
        Some(categoria) => match actividad_asignada(categoria, act) {
            Err(e) => Err(e),
            Ok(actividad) => Ok(
                SocioView {
                    dni,
                    categoria,
                    actividad,
                    fecha_registro,
                    pagos_realizados,
                    pagos_pendientes,
                    pagos_sin_atrasos,
                },
            ),
        },
    }
}

impl Socio {
    /// Builds a member from the names of its category and activity.
    ///
    /// Fails with `InvalidCategory` when the category name is unknown, and
    /// with `InvalidActivity` when the category is `B` and the activity name
    /// is not that of a concrete activity.
    pub fn crear_socio(
        dni: u128,
        cate: String,
        act: String,
        fecha_registro: u64,
        pagos_realizados: Vec<u128>,
        pagos_pendientes: Vec<u128>,
        pagos_sin_atrasos: u128,
    ) -> (r: Result<Socio, ClubError>)
        ensures
            match socio_creado(
                dni,
                cate@,
                act@,
                fecha_registro,
                pagos_realizados@,
                pagos_pendientes@,
                pagos_sin_atrasos,
            ) {
                Ok(v) => r is Ok && r->Ok_0@ == v,
                Err(e) => r == Err::<Socio, ClubError>(e),
            },
    {
        let categoria = match TipoCategoria::desde_nombre(cate.as_str()) {
            Some(c) => c,
            None => {
                return Err(ClubError::InvalidCategory);
            },
        };
        let actividad = match categoria {
            TipoCategoria::A => Some(Actividad::TODOS),
            TipoCategoria::B => match Socio::elegir_actividad(act) {
                Some(a) => Some(a),
                None => {
                    return Err(ClubError::InvalidActivity);
                },
            },
            TipoCategoria::C => None,
        };
        Ok(
            Socio {
                dni,
                categoria,
                actividad,
                fecha_registro,
                pagos_realizados,
                pagos_pendientes,
                pagos_sin_atrasos,
            },
        )
    }

    /// Reads the activity a member of category `B` has chosen: one of the
    /// seven concrete activities, or nothing when the name denotes none.
    pub fn elegir_actividad(act: String) -> (r: Option<Actividad>)
        ensures
            r == actividad_de_nombre(act@),
    {
        Actividad::desde_nombre(act.as_str())
    }
}

} // verus!
