//! Reports drawn from a snapshot of the club's books: who is in arrears,
//! who may attend an activity, and what each category brought in during a
//! month.

use crate::categoria::{
    actividad_de_nombre, lema_categoria_ida_y_vuelta, nombre_de_actividad, Actividad, TipoCategoria,
};
use crate::club::Club;
use crate::cuenta::AccountId;
use crate::errores::ClubError;
use crate::fecha::{calcular_fecha, fecha_de, Fecha};
use crate::invariante::lema_filtro_push;
use crate::modelo::ClubView;
use crate::pago::Pago;
use crate::socio::SocioView;
use crate::texto::textos_iguales;
use vstd::prelude::*;

verus! {

/// What the club reports of a member: the dni and the names of the
/// category and of the activity.
#[derive(Debug, PartialEq, Eq)]
pub struct SocioInfo {
    pub dni: u128,
    pub categoria: String,
    pub actividad: String,
}

/// The mathematical value of a [`SocioInfo`].
pub struct SocioInfoView {
    pub dni: u128,
    pub categoria: Seq<char>,
    pub actividad: Seq<char>,
}

impl View for SocioInfo {
    type V = SocioInfoView;

    open spec fn view(&self) -> SocioInfoView {
        SocioInfoView { dni: self.dni, categoria: self.categoria@, actividad: self.actividad@ }
    }
}

/// What the club reports of a payment. `fecha` is the time stamp by which
/// the payment is dated: the club reports the due date.
#[derive(Clone, Copy, Debug, PartialEq, Eq)]
pub struct PagoInfo {
    pub dni_socio: u128,
    pub id: u128,
    pub fecha: u64,
    pub pagado: bool,
    pub costo: u128,
}

/// A snapshot of the books: the members in order of registration, and the
/// payments in ledger order.
#[derive(Debug, PartialEq, Eq)]
pub struct Info {
    pub socios: Vec<SocioInfo>,
    pub pagos: Vec<PagoInfo>,
}

/// The reporting engine: a snapshot of the books and the time at which
/// the reports are made.
#[derive(Debug, PartialEq, Eq)]
pub struct Reporte {
    pub info: Info,
    pub ahora: u64,
}

/// What the club reports of a member of its registry.
pub open spec fn socio_informado(s: SocioView) -> SocioInfoView {
    SocioInfoView {
        dni: s.dni,
        categoria: s.categoria.spec_nombre(),
        actividad: nombre_de_actividad(s.actividad),
    }
}

/// What the club reports of a payment of its ledger: the payment is dated
/// by its due date.
pub open spec fn pago_informado(p: Pago) -> PagoInfo {
    PagoInfo {
        dni_socio: p.dni_socio,
        id: p.id,
        fecha: p.fecha_vencimiento,
        pagado: p.pagado,
        costo: p.costo,
    }
}

/// The members of the club's books as they are reported, in order of
/// registration.
pub open spec fn socios_informados(v: ClubView) -> Seq<SocioInfoView> {
    v.socios.map_values(|s: SocioView| socio_informado(s))
}

/// The payments of the club's books as they are reported, in ledger order.
pub open spec fn pagos_del_libro(v: ClubView) -> Seq<PagoInfo> {
    v.pagos.map_values(|p: Pago| pago_informado(p))
}

/// What a reader is shown of a reported payment: its id, its date, whether
/// it is paid, and its amount.
pub open spec fn datos_del_pago(p: PagoInfo) -> (u128, u64, bool, u128) {
    (p.id, p.fecha, p.pagado, p.costo)
}

/// The reported payments of one member, as shown to a reader.
pub open spec fn pagos_informados(pagos: Seq<PagoInfo>, dni: u128) -> Seq<
    (u128, u64, bool, u128),
> {
    pagos.filter(|p: PagoInfo| p.dni_socio == dni).map_values(|p: PagoInfo| datos_del_pago(p))
}

/// A payment is in arrears at time `hoy` when it is unpaid and its date
/// has passed.
pub open spec fn adeudado(p: PagoInfo, hoy: u64) -> bool {
    !p.pagado && hoy > p.fecha
}

/// A member is in arrears when one of the member's payments is.
pub open spec fn moroso(pagos: Seq<PagoInfo>, dni: u128, hoy: u64) -> bool {
    exists|j: int|
        0 <= j < pagos.len() && (#[trigger] pagos[j]).dni_socio == dni && adeudado(pagos[j], hoy)
}

/// The members in arrears among the given ones, in the order given.
pub open spec fn morosos(dnis: Seq<u128>, pagos: Seq<PagoInfo>, hoy: u64) -> Seq<u128> {
    dnis.filter(|dni: u128| moroso(pagos, dni, hoy))
}

/// Whether a member may attend the activity named `act` at time `hoy`: the
/// member is not in arrears, and is of category "A", or of category "B"
/// with that activity. A member of any other category may not.
pub open spec fn puede_asistir(
    s: SocioInfoView,
    pagos: Seq<PagoInfo>,
    act: Seq<char>,
    hoy: u64,
) -> bool {
    &&& !moroso(pagos, s.dni, hoy)
    &&& (s.categoria == "A"@ || (s.categoria == "B"@ && s.actividad == act))
}

/// The members who may attend an activity, in order of registration.
pub open spec fn asistentes(
    socios: Seq<SocioInfoView>,
    pagos: Seq<PagoInfo>,
    act: Seq<char>,
    hoy: u64,
) -> Seq<SocioInfoView> {
    socios.filter(|s: SocioInfoView| puede_asistir(s, pagos, act, hoy))
}

/// The dni of each member who may attend an activity.
pub open spec fn habilitados(
    socios: Seq<SocioInfoView>,
    pagos: Seq<PagoInfo>,
    act: Seq<char>,
    hoy: u64,
) -> Seq<u128> {
    asistentes(socios, pagos, act, hoy).map_values(|s: SocioInfoView| s.dni)
}

/// Whether a payment is dated in the given month of the given year.
pub open spec fn en_periodo(p: PagoInfo, mes: u64, anio: u64) -> bool {
    fecha_de(p.fecha).mes == mes && fecha_de(p.fecha).anio == anio
}

/// The sum of the amounts of a member's payments dated in a period.
pub open spec fn recaudado_de(pagos: Seq<PagoInfo>, dni: u128, mes: u64, anio: u64) -> nat
    decreases pagos.len(),
{
    if pagos.len() == 0 {
        0
    } else {
        recaudado_de(pagos.drop_last(), dni, mes, anio) + if pagos.last().dni_socio == dni
            && en_periodo(pagos.last(), mes, anio) {
            pagos.last().costo as nat
        } else {
            0
        }
    }
}

/// The sum, over the members whose category is named `cate`, of what each
/// member's payments dated in a period amount to.
pub open spec fn recaudado_por(
    socios: Seq<SocioInfoView>,
    pagos: Seq<PagoInfo>,
    cate: Seq<char>,
    mes: u64,
    anio: u64,
) -> nat
    decreases socios.len(),
{
    if socios.len() == 0 {
        0
    } else {
        recaudado_por(socios.drop_last(), pagos, cate, mes, anio) + if socios.last().categoria
            == cate {
            recaudado_de(pagos, socios.last().dni, mes, anio)
        } else {
            0
        }
    }
}

impl SocioInfo {
    /// Builds the report of a member from its parts.
    pub fn crear_socio(dni: u128, categoria: String, actividad: String) -> (s: SocioInfo)
        ensures
            s@ == (SocioInfoView { dni, categoria: categoria@, actividad: actividad@ }),
    {
        SocioInfo { dni, categoria, actividad }
    }
}

impl PagoInfo {
    /// Builds the report of a payment from its parts.
    pub fn crear_pago(
        dni_socio: u128,
        id: u128,
        fecha: u64,
        pagado: bool,
        costo: u128,
    ) -> (p: PagoInfo)
        ensures
            p == (PagoInfo { dni_socio, id, fecha, pagado, costo }),
    {
        PagoInfo { dni_socio, id, fecha, pagado, costo }
    }
}

impl Info {
    /// The reported members, as mathematical values.
    pub open spec fn socios(&self) -> Seq<SocioInfoView> {
        self.socios@.map_values(|s: SocioInfo| s@)
    }

    /// Takes a snapshot of the club's books for a caller who may act: every
    /// member with the names of its category and activity, in order of
    /// registration, and every payment of the ledger, dated by its due
    /// date, in ledger order.
    ///
    /// Fails with `NotAuthorized` when the caller may not act.
    pub fn del_club(club: &Club, caller: AccountId) -> (r: Result<Info, ClubError>)
        ensures
            match r {
                Ok(info) => {
                    &&& club@.aceptar_modificaciones(caller)
                    &&& info.socios() == socios_informados(club@)
                    &&& info.pagos@ == pagos_del_libro(club@)
                },
                Err(e) => !club@.aceptar_modificaciones(caller) && e == ClubError::NotAuthorized,
            },
    {
        if !club.aceptar_modificaciones(caller) {
            return Err(ClubError::NotAuthorized);
        }
        let mut info = Info { socios: Vec::new(), pagos: Vec::new() };
        let mut i: usize = 0;
        while i < club.socios.len()
            invariant
                i <= club.socios.len(),
                info.pagos@.len() == 0,
                info.socios() == socios_informados(club@).take(i as int),
            decreases club.socios.len() - i,
        {
            let socio = &club.socios[i];
            let actividad = match &socio.actividad {
                Some(a) => a.nombre(),
                None => "NADA".to_string(),
            };
            let nuevo = SocioInfo::crear_socio(socio.dni, socio.categoria.nombre(), actividad);
            info.socios.push(nuevo);
            assert(info.socios() =~= socios_informados(club@).take(i as int).push(nuevo@));
            i += 1;
        }
        let mut j: usize = 0;
        while j < club.pagos.len()
            invariant
                j <= club.pagos.len(),
                info.socios() == socios_informados(club@),
                info.pagos@ == pagos_del_libro(club@).take(j as int),
            decreases club.pagos.len() - j,
        {
            let pago = &club.pagos[j];
            info.pagos.push(
                PagoInfo::crear_pago(
                    pago.dni_socio,
                    pago.id,
                    pago.fecha_vencimiento,
                    pago.pagado,
                    pago.costo,
                ),
            );
            j += 1;
        }
        Ok(info)
    }
}

impl Reporte {
    /// The reported members, as mathematical values.
    pub open spec fn socios(&self) -> Seq<SocioInfoView> {
        self.info.socios()
    }

    /// The dni of each reported member.
    pub open spec fn dnis(&self) -> Seq<u128> {
        self.socios().map_values(|s: SocioInfoView| s.dni)
    }

    /// The reported payments.
    pub open spec fn pagos(&self) -> Seq<PagoInfo> {
        self.info.pagos@
    }

    /// A reporting engine over a snapshot taken at time `ahora`.
    pub fn new(info: Info, ahora: u64) -> (r: Reporte)
        ensures
            r.info == info,
            r.ahora == ahora,
    {
        Reporte { info, ahora }
    }

    /// The time at which the reports are made.
    pub fn tiempo(&self) -> (t: u64)
        ensures
            t == self.ahora,
    {
        self.ahora
    }

    /// The dni of each member, in order of registration.
    pub fn get_socios(&self) -> (vec: Vec<u128>)
        ensures
            vec@ == self.dnis(),
    {
        let mut vec: Vec<u128> = Vec::new();
        let mut i: usize = 0;
        while i < self.info.socios.len()
            invariant
                i <= self.info.socios.len(),
                vec@ == self.dnis().take(i as int),
            decreases self.info.socios.len() - i,
        {
            vec.push(self.info.socios[i].dni);
            i += 1;
        }
        vec
    }

    /// The payments of a member: for each, in ledger order, its id, its
    /// date, whether it is paid, and its amount.
    pub fn get_pagos(&self, dni: u128) -> (vec: Vec<(u128, u64, bool, u128)>)
        ensures
            vec@ == pagos_informados(self.pagos(), dni),
    {
        let mut vec: Vec<(u128, u64, bool, u128)> = Vec::new();
        let mut j: usize = 0;
        while j < self.info.pagos.len()
            invariant
                j <= self.info.pagos.len(),
                vec@ == pagos_informados(self.pagos().take(j as int), dni),
            decreases self.info.pagos.len() - j,
        {
            let pago = self.info.pagos[j];
            proof {
                lema_filtro_push(
                    self.pagos().take(j as int),
                    pago,
                    |p: PagoInfo| p.dni_socio == dni,
                );
                assert(self.pagos().take(j as int).push(pago) =~= self.pagos().take(j + 1));
            }
            if pago.dni_socio == dni {
                vec.push((pago.id, pago.fecha, pago.pagado, pago.costo));
            }
            j += 1;
        }
        assert(self.pagos().take(self.info.pagos.len() as int) =~= self.pagos());
        vec
    }

    /// The names of the category and of the activity of the member at
    /// position `i`.
    pub fn get_info_socio(&self, i: u128) -> (tupla: (String, String))
        requires
            i < self.info.socios.len(),
        ensures
            tupla.0@ == self.socios()[i as int].categoria,
            tupla.1@ == self.socios()[i as int].actividad,
    {
        let socio = &self.info.socios[i as usize];
        (socio.categoria.clone(), socio.actividad.clone())
    }

    /// Whether the member is in arrears at time `fecha_hoy`: whether one
    /// of the member's payments is unpaid with its date passed. The search
    /// stops at the first such payment.
    pub fn es_moroso(&self, socio: u128, fecha_hoy: u64) -> (ok: bool)
        ensures
            ok == moroso(self.pagos(), socio, fecha_hoy),
    {
        let mut i: usize = 0;
        while i < self.info.pagos.len()
            invariant
                i <= self.info.pagos.len(),
                forall|j: int|
                    0 <= j < i ==> !((#[trigger] self.pagos()[j]).dni_socio == socio && adeudado(
                        self.pagos()[j],
                        fecha_hoy,
                    )),
            decreases self.info.pagos.len() - i,
        {
            let pago = &self.info.pagos[i];
            if pago.dni_socio == socio && !pago.pagado && fecha_hoy > pago.fecha {
                return true;
            }
            i += 1;
        }
        false
    }

    /// The members in arrears at the time of the report, in order of
    /// registration, each once.
    pub fn get_pagos_pendientes(&self) -> (vector: Vec<u128>)
        ensures
            vector@ == morosos(self.dnis(), self.pagos(), self.ahora),
    {
        let mut vector: Vec<u128> = Vec::new();
        let socios = self.get_socios();
        let fecha_hoy: u64 = self.tiempo();
        let mut i: usize = 0;
        while i < socios.len()
            invariant
                i <= socios.len(),
                socios@ == self.dnis(),
                fecha_hoy == self.ahora,
                vector@ == morosos(socios@.take(i as int), self.pagos(), fecha_hoy),
            decreases socios.len() - i,
        {
            let socio: u128 = socios[i];
            proof {
                lema_filtro_push(
                    socios@.take(i as int),
                    socio,
                    |dni: u128| moroso(self.pagos(), dni, fecha_hoy),
                );
                assert(socios@.take(i as int).push(socio) =~= socios@.take(i + 1));
            }
            if self.es_moroso(socio, fecha_hoy) {
                vector.push(socio);
            }
            i += 1;
        }
        assert(socios@.take(socios.len() as int) =~= socios@);
        vector
    }

    /// Whether the name is that of one of the seven concrete activities.
    pub fn es_actividad_valida(&self, actividad: &String) -> (r: bool)
        ensures
            r == actividad_de_nombre(actividad@).is_some(),
    {
        Actividad::desde_nombre(actividad.as_str()).is_some()
    }

    /// The members who may attend the named activity at the time of the
    /// report, in order of registration: those not in arrears who are of
    /// category "A", or of category "B" with that activity. A member of
    /// category "C" is never among them, whatever activity is reported of
    /// the member.
    ///
    /// Fails with `InvalidActivity` when the name is not that of one of
    /// the seven concrete activities.
    pub fn get_socios_no_morosos_actividad_especifica(
        &self,
        actividad: String,
    ) -> (r: Result<Vec<u128>, ClubError>)
        ensures
            match r {
                Ok(vector) => actividad_de_nombre(actividad@).is_some() && vector@ == habilitados(
                    self.socios(),
                    self.pagos(),
                    actividad@,
                    self.ahora,
                ),
                Err(e) => actividad_de_nombre(actividad@).is_none() && e
                    == ClubError::InvalidActivity,
            },
    {
        if !self.es_actividad_valida(&actividad) {
            return Err(ClubError::InvalidActivity);
        }
        let mut vector: Vec<u128> = Vec::new();
        let fecha_hoy: u64 = self.tiempo();
        let mut i: usize = 0;
        while i < self.info.socios.len()
            invariant
                i <= self.info.socios.len(),
                fecha_hoy == self.ahora,
                vector@ == habilitados(
                    self.socios().take(i as int),
                    self.pagos(),
                    actividad@,
                    fecha_hoy,
                ),
            decreases self.info.socios.len() - i,
        {
            let socio = &self.info.socios[i];
            proof {
                lema_filtro_push(
                    self.socios().take(i as int),
                    socio@,
                    |s: SocioInfoView| puede_asistir(s, self.pagos(), actividad@, fecha_hoy),
                );
                assert(self.socios().take(i as int).push(socio@) =~= self.socios().take(i + 1));
            }
            if !self.es_moroso(socio.dni, fecha_hoy) {
                if textos_iguales(socio.categoria.as_str(), "A") {
                    vector.push(socio.dni);
                } else if textos_iguales(socio.categoria.as_str(), "B") {
                    if textos_iguales(socio.actividad.as_str(), actividad.as_str()) {
                        vector.push(socio.dni);
                    }
                }
            }
            i += 1;
        }
        assert(self.socios().take(self.info.socios.len() as int) =~= self.socios());
        Ok(vector)
    }

    /// Whether what each of the three categories brought in during a
    /// period can be written in 128 bits.
    pub open spec fn recaudacion_representable(&self, mes: u64, anio: u64) -> bool {
        &&& recaudado_por(self.socios(), self.pagos(), "A"@, mes, anio) <= u128::MAX
        &&& recaudado_por(self.socios(), self.pagos(), "B"@, mes, anio) <= u128::MAX
        &&& recaudado_por(self.socios(), self.pagos(), "C"@, mes, anio) <= u128::MAX
    }

    /// The sum of the amounts of a member's payments dated in a period, or
    /// nothing where the sum cannot be written in 128 bits.
    fn recaudado_del_socio(&self, dni: u128, mes: u64, anio: u64) -> (total: Option<u128>)
        ensures
            total == if recaudado_de(self.pagos(), dni, mes, anio) <= u128::MAX {
                Some(recaudado_de(self.pagos(), dni, mes, anio) as u128)
            } else {
                None
            },
    {
        let mut total: u128 = 0;
        let mut j: usize = 0;
        while j < self.info.pagos.len()
            invariant
                j <= self.info.pagos.len(),
                total == recaudado_de(self.pagos().take(j as int), dni, mes, anio),
            decreases self.info.pagos.len() - j,
        {
            proof {
                assert(self.pagos().take(j + 1).drop_last() =~= self.pagos().take(j as int));
                lema_recaudado_de_prefijo(self.pagos(), j + 1, dni, mes, anio);
            }
            let pago = self.info.pagos[j];
            if pago.dni_socio == dni {
                let fecha = self.calcular_fecha(pago.fecha);
                if fecha.mes == mes && fecha.anio == anio {
                    total = match total.checked_add(pago.costo) {
                        Some(suma) => suma,
                        None => {
                            return None;
                        },
                    };
                }
            }
            j += 1;
        }
        assert(self.pagos().take(self.info.pagos.len() as int) =~= self.pagos());
        Some(total)
    }

    /// A total with what one member brought in during a period added to
    /// it, or nothing where that cannot be written in 128 bits.
    fn sumar_recaudado(&self, total: u128, dni: u128, mes: u64, anio: u64) -> (r: Option<u128>)
        ensures
            r == if total + recaudado_de(self.pagos(), dni, mes, anio) <= u128::MAX {
                Some((total + recaudado_de(self.pagos(), dni, mes, anio)) as u128)
            } else {
                None
            },
    {
        match self.recaudado_del_socio(dni, mes, anio) {
            Some(monto) => total.checked_add(monto),
            None => None,
        }
    }

    /// What each category brought in during a month of a year: for "A",
    /// "B" and "C", in that order, the sum of the amounts of the payments
    /// dated in that month that belong to the members of the category. A
    /// category that brought in nothing is listed with 0.
    ///
    /// Returns nothing where one of the three sums cannot be written in
    /// 128 bits.
    pub fn recaudacion_mensual(&self, mes: u64, anio: u64) -> (r: Option<Vec<(String, u128)>>)
        ensures
            r is Some <==> self.recaudacion_representable(mes, anio),
            r matches Some(map) ==> {
                &&& map@.len() == 3
                &&& map@[0].0@ == "A"@
                &&& map@[0].1 == recaudado_por(self.socios(), self.pagos(), "A"@, mes, anio)
                &&& map@[1].0@ == "B"@
                &&& map@[1].1 == recaudado_por(self.socios(), self.pagos(), "B"@, mes, anio)
                &&& map@[2].0@ == "C"@
                &&& map@[2].1 == recaudado_por(self.socios(), self.pagos(), "C"@, mes, anio)
            },
    {
        let mut map: Vec<(String, u128)> = Vec::new();
        let mut a: u128 = 0;
        let mut b: u128 = 0;
        let mut c: u128 = 0;
        let mut i: usize = 0;
        while i < self.info.socios.len()
            invariant
                i <= self.info.socios.len(),
                a == recaudado_por(self.socios().take(i as int), self.pagos(), "A"@, mes, anio),
                b == recaudado_por(self.socios().take(i as int), self.pagos(), "B"@, mes, anio),
                c == recaudado_por(self.socios().take(i as int), self.pagos(), "C"@, mes, anio),
            decreases self.info.socios.len() - i,
        {
            let socio = &self.info.socios[i];
            proof {
                assert(self.socios().take(i + 1).drop_last() =~= self.socios().take(i as int));
                lema_recaudado_por_prefijo(self.socios(), i + 1, self.pagos(), "A"@, mes, anio);
                lema_recaudado_por_prefijo(self.socios(), i + 1, self.pagos(), "B"@, mes, anio);
                lema_recaudado_por_prefijo(self.socios(), i + 1, self.pagos(), "C"@, mes, anio);
                lema_categoria_ida_y_vuelta(TipoCategoria::A);
                lema_categoria_ida_y_vuelta(TipoCategoria::B);
                lema_categoria_ida_y_vuelta(TipoCategoria::C);
            }
            if textos_iguales(socio.categoria.as_str(), "A") {
                a = match self.sumar_recaudado(a, socio.dni, mes, anio) {
                    Some(suma) => suma,
                    None => {
                        return None;
                    },
                };
            } else if textos_iguales(socio.categoria.as_str(), "B") {
                b = match self.sumar_recaudado(b, socio.dni, mes, anio) {
                    Some(suma) => suma,
                    None => {
                        return None;
                    },
                };
            } else if textos_iguales(socio.categoria.as_str(), "C") {
                c = match self.sumar_recaudado(c, socio.dni, mes, anio) {
                    Some(suma) => suma,
                    None => {
                        return None;
                    },
                };
            }
            i += 1;
        }
        assert(self.socios().take(self.info.socios.len() as int) =~= self.socios());
        map.push(("A".to_string(), a));
        map.push(("B".to_string(), b));
        map.push(("C".to_string(), c));
        Some(map)
    }

    /// The date on which a time stamp in milliseconds falls.
    pub fn calcular_fecha(&self, time: u64) -> (f: Fecha)
        ensures
            f.valida(),
            f == fecha_de(time),
    {
        calcular_fecha(time)
    }
}

/// What a member's payments amount to in a period grows with the ledger.
pub proof fn lema_recaudado_de_prefijo(
    pagos: Seq<PagoInfo>,
    j: int,
    dni: u128,
    mes: u64,
    anio: u64,
)
    requires
        0 <= j <= pagos.len(),
    ensures
        recaudado_de(pagos.take(j), dni, mes, anio) <= recaudado_de(pagos, dni, mes, anio),
    decreases pagos.len(),
{
    if j < pagos.len() {
        assert(pagos.drop_last().take(j) =~= pagos.take(j));
        lema_recaudado_de_prefijo(pagos.drop_last(), j, dni, mes, anio);
    } else {
        assert(pagos.take(j) =~= pagos);
    }
}

/// What a category brought in during a period grows with the registry.
pub proof fn lema_recaudado_por_prefijo(
    socios: Seq<SocioInfoView>,
    i: int,
    pagos: Seq<PagoInfo>,
    cate: Seq<char>,
    mes: u64,
    anio: u64,
)
    requires
        0 <= i <= socios.len(),
    ensures
        recaudado_por(socios.take(i), pagos, cate, mes, anio) <= recaudado_por(
            socios,
            pagos,
            cate,
            mes,
            anio,
        ),
    decreases socios.len(),
{
    if i < socios.len() {
        assert(socios.drop_last().take(i) =~= socios.take(i));
        lema_recaudado_por_prefijo(socios.drop_last(), i, pagos, cate, mes, anio);
    } else {
        assert(socios.take(i) =~= socios);
    }
}

} // verus!
