//! Laws of the club: what holds of every state of the books and of every
//! sequence of operations on them.

use crate::categoria::{categoria_de_nombre, TipoCategoria};
use crate::cuenta::AccountId;
use crate::errores::ClubError;
use crate::fecha::fecha_de;
use crate::invariante::{lema_con_pago_bien_formado, lema_posicion, lema_tras_cobro_bien_formado};
use crate::modelo::{porcentaje, ClubView, PLAZO_PRIMER_PAGO, PLAZO_RENOVACION};
use crate::reporte::{
    adeudado, asistentes, en_periodo, moroso, morosos, pagos_del_libro, puede_asistir, recaudado_de,
    recaudado_por, socios_informados, PagoInfo, SocioInfoView,
};
use vstd::prelude::*;

verus! {

// ----- prices -----

/// A price that was set is the price that is read: after the price of a
/// category has been set, a caller who may act is told that price, and the
/// prices of the other categories are as before.
pub proof fn lema_precio_fijado_se_lee(
    v: ClubView,
    caller: AccountId,
    categoria: TipoCategoria,
    monto: u128,
    otra: TipoCategoria,
)
    requires
        v.aceptar_modificaciones(caller),
    ensures
        v.con_precio(categoria, monto).precio_leido(caller, categoria) == Ok::<u128, ClubError>(
            monto,
        ),
        otra != categoria ==> v.con_precio(categoria, monto).precio_leido(caller, otra)
            == v.precio_leido(caller, otra),
        v.precio_categoria.completa() ==> v.con_precio(
            categoria,
            monto,
        ).precio_categoria.completa(),
{
}

/// While every category has a price, nothing is refused for want of one;
/// and registrations, renewals and payments leave the price table as it
/// is, so that only setting a price changes it.
pub proof fn lema_precios_completos(
    v: ClubView,
    caller: AccountId,
    dni: u128,
    cate: Seq<char>,
    act: Seq<char>,
    ahora: u64,
)
    requires
        v.precio_categoria.completa(),
    ensures
        v.rechazo_registro(caller, dni, cate, act) != Some(ClubError::CategoryNotPriced),
        v.rechazo_renovacion(caller, dni) != Some(ClubError::CategoryNotPriced),
        forall|c: TipoCategoria|
            v.precio_leido(caller, c) != Err::<u128, ClubError>(ClubError::CategoryNotPriced),
        v.registro(dni, cate, act, ahora).precio_categoria == v.precio_categoria,
        v.tras_renovacion(dni).precio_categoria == v.precio_categoria,
        v.cobro(dni, ahora).precio_categoria == v.precio_categoria,
{
}

/// The discount is the percentage of the price rounded down: it is the
/// largest amount whose hundredfold does not exceed price times percentage.
pub proof fn lema_porcentaje_redondea_hacia_abajo(monto: u128, descuento: u128)
    requires
        monto * descuento <= u128::MAX,
    ensures
        porcentaje(monto, descuento) is Some,
        porcentaje(monto, descuento).unwrap() * 100 <= monto * descuento,
        monto * descuento < (porcentaje(monto, descuento).unwrap() + 1) * 100,
        descuento <= 100 ==> porcentaje(monto, descuento).unwrap() <= monto,
{
    let producto = monto * descuento;
    assert(0 <= producto) by (nonlinear_arith)
        requires
            producto == monto * descuento,
            monto >= 0,
            descuento >= 0,
    ;
    vstd::arithmetic::div_mod::lemma_fundamental_div_mod(producto, 100);
    if descuento <= 100 {
        assert(producto <= monto * 100) by (nonlinear_arith)
            requires
                producto == monto * descuento,
                descuento <= 100,
                monto >= 0,
        ;
    }
}

// ----- the registry -----

/// A member is found where it stands.
pub proof fn lema_posicion_de(v: ClubView, i: int)
    requires
        v.dnis_unicos(),
        0 <= i < v.socios.len(),
    ensures
        v.posicion(v.socios[i].dni) == Some(i),
{
    let dni = v.socios[i].dni;
    lema_posicion(v, dni);
    assert(v.dnis()[i] == dni);
    assert(v.dnis().contains(dni));
}

// ----- the queue of pending payments -----

/// The books after `n` renewals in a row have been issued to a member.
pub open spec fn tras_renovaciones(v: ClubView, dni: u128, n: nat) -> ClubView
    decreases n,
{
    if n == 0 {
        v
    } else {
        tras_renovaciones(v, dni, (n - 1) as nat).tras_renovacion(dni)
    }
}

/// Issuing a payment changes no payment that is in the ledger and no dni
/// of the registry; the payment joins the back of its member's pending
/// queue, which keeps its head.
pub proof fn lema_con_pago_al_final(
    v: ClubView,
    dni: u128,
    costo: u128,
    vencimiento: u64,
    descuento: bool,
)
    requires
        v.bien_formado(),
        v.pagos.len() < usize::MAX,
    ensures
        ({
            let w = v.con_pago(dni, costo, vencimiento, descuento);
            &&& w.bien_formado()
            &&& w.dnis() == v.dnis()
            &&& w.pagos.len() == v.pagos.len() + 1
            &&& w.pagos.take(v.pagos.len() as int) == v.pagos
            &&& w.pagos.last().id == v.pagos.len() + 1
            &&& match v.posicion(dni) {
                Some(i) => {
                    &&& w.socios[i].pagos_pendientes == v.socios[i].pagos_pendientes.push(
                        (v.pagos.len() + 1) as u128,
                    )
                    &&& v.socios[i].pagos_pendientes.len() > 0 ==> w.cabeza(i) == v.cabeza(i)
                },
                None => w.socios == v.socios,
            }
        }),
{
    let w = v.con_pago(dni, costo, vencimiento, descuento);
    lema_con_pago_bien_formado(v, dni, costo, vencimiento, descuento);
    lema_posicion(v, dni);
    assert(w.dnis() =~= v.dnis());
    assert(w.pagos.take(v.pagos.len() as int) =~= v.pagos);
    match v.posicion(dni) {
        Some(i) => {
            if v.socios[i].pagos_pendientes.len() > 0 {
                assert(v.colas_validas(i));
                assert(v.es_pago_de(v.socios[i].pagos_pendientes[0], v.socios[i].dni, false));
            }
        },
        None => {},
    }
}

/// First in, first out: after any number of renewals in a row, with no
/// payment made in between, the member's pending queue is the queue as it
/// was followed by the new payments in the order issued, and the payment
/// at its head, which is the one that the next payment settles, is still
/// the one that was there first.
pub proof fn lema_renovaciones_en_orden(v: ClubView, dni: u128, n: nat)
    requires
        v.bien_formado(),
        v.existe_socio(dni),
        v.pagos.len() + n <= usize::MAX,
    ensures
        ({
            let i = v.posicion(dni).unwrap();
            let w = tras_renovaciones(v, dni, n);
            &&& w.bien_formado()
            &&& w.posicion(dni) == Some(i)
            &&& w.pagos.len() == v.pagos.len() + n
            &&& w.pagos.take(v.pagos.len() as int) == v.pagos
            &&& w.socios[i].pagos_pendientes == v.socios[i].pagos_pendientes + Seq::new(
                n,
                |k: int| (v.pagos.len() + 1 + k) as u128,
            )
            &&& v.socios[i].pagos_pendientes.len() > 0 ==> w.cabeza(i) == v.cabeza(i)
        }),
    decreases n,
{
    lema_posicion(v, dni);
    let i = v.posicion(dni).unwrap();
    let nuevos = Seq::new(n, |k: int| (v.pagos.len() + 1 + k) as u128);
    if n == 0 {
        assert(v.pagos.take(v.pagos.len() as int) =~= v.pagos);
        assert(v.socios[i].pagos_pendientes + nuevos =~= v.socios[i].pagos_pendientes);
    } else {
        let m = (n - 1) as nat;
        let u = tras_renovaciones(v, dni, m);
        let w = u.tras_renovacion(dni);
        lema_renovaciones_en_orden(v, dni, m);
        let base = u.precio_de(i).unwrap();
        let (costo, rebajado) = u.cuota_renovacion(dni, base);
        let vencimiento = (u.ultimo_vencimiento(dni) + PLAZO_RENOVACION) as u64;
        lema_con_pago_al_final(u, dni, costo, vencimiento, rebajado);
        assert(w.pagos.take(v.pagos.len() as int) =~= v.pagos) by {
            assert(u.pagos.take(v.pagos.len() as int) == v.pagos);
            assert(w.pagos.take(u.pagos.len() as int) == u.pagos);
            assert forall|j: int| 0 <= j < v.pagos.len() implies w.pagos[j] == v.pagos[j] by {
                assert(w.pagos.take(u.pagos.len() as int)[j] == u.pagos[j]);
                assert(u.pagos.take(v.pagos.len() as int)[j] == v.pagos[j]);
            }
        }
        assert(w.socios[i].pagos_pendientes =~= v.socios[i].pagos_pendientes + nuevos);
    }
}

/// The payment that a member settles is the oldest one pending: the head
/// of the pending queue carries the smallest id of the queue, ids being
/// given in the order in which payments are issued. Settling it marks that
/// payment and no other, takes it off the front of the queue and leaves
/// the rest of the queue as it was.
pub proof fn lema_cobro_al_mas_antiguo(v: ClubView, i: int, ahora: u64)
    requires
        v.bien_formado(),
        0 <= i < v.socios.len(),
        v.socios[i].pagos_pendientes.len() > 0,
    ensures
        ({
            let cola = v.socios[i].pagos_pendientes;
            let w = v.tras_cobro(i, ahora);
            &&& forall|k: int| 1 <= k < cola.len() ==> cola[0] < #[trigger] cola[k]
            &&& !v.cabeza(i).pagado
            &&& v.cabeza(i).id == cola[0]
            &&& w.bien_formado()
            &&& w.socios[i].pagos_pendientes == cola.drop_first()
            &&& w.socios[i].pagos_realizados == v.socios[i].pagos_realizados.push(cola[0])
            &&& w.pagos.len() == v.pagos.len()
            &&& w.pagos[cola[0] - 1].pagado
            &&& w.pagos[cola[0] - 1].fecha_pago == Some(ahora)
            &&& forall|j: int|
                0 <= j < v.pagos.len() && j != cola[0] - 1 ==> #[trigger] w.pagos[j] == v.pagos[j]
        }),
{
    lema_tras_cobro_bien_formado(v, i, ahora);
    assert(v.colas_validas(i));
}

/// Only the exact amount is taken: a member who owes is refused with
/// `AmountMismatch` exactly when the amount tendered differs from the
/// amount of the payment at the head of the queue, be it smaller or
/// greater, and is otherwise not refused at all.
pub proof fn lema_monto_exacto(v: ClubView, caller: AccountId, dni: u128, monto: u128)
    requires
        v.bien_formado(),
        v.aceptar_modificaciones(caller),
        v.existe_socio(dni),
        v.socios[v.posicion(dni).unwrap()].pagos_pendientes.len() > 0,
    ensures
        ({
            let debido = v.cabeza(v.posicion(dni).unwrap()).costo;
            &&& monto != debido ==> v.rechazo_cobro(caller, dni, monto) == Some(
                ClubError::AmountMismatch,
            )
            &&& monto == debido ==> v.rechazo_cobro(caller, dni, monto) is None
        }),
{
    lema_posicion(v, dni);
    lema_tras_cobro_bien_formado(v, v.posicion(dni).unwrap(), 0);
}

// ----- the history of the books -----

/// What relates the books at two moments of their history: no member and
/// no payment is ever removed; a member keeps its dni, its category and
/// its activity; a payment keeps its id, its member, its amount, its due
/// date and whether it was discounted; and a paid payment never changes.
pub open spec fn continua(antes: ClubView, despues: ClubView) -> bool {
    &&& antes.socios.len() <= despues.socios.len()
    &&& antes.pagos.len() <= despues.pagos.len()
    &&& forall|i: int|
        0 <= i < antes.socios.len() ==> {
            &&& (#[trigger] despues.socios[i]).dni == antes.socios[i].dni
            &&& despues.socios[i].categoria == antes.socios[i].categoria
            &&& despues.socios[i].actividad == antes.socios[i].actividad
            &&& despues.socios[i].fecha_registro == antes.socios[i].fecha_registro
        }
    &&& forall|j: int|
        0 <= j < antes.pagos.len() ==> {
            &&& (#[trigger] despues.pagos[j]).id == antes.pagos[j].id
            &&& despues.pagos[j].dni_socio == antes.pagos[j].dni_socio
            &&& despues.pagos[j].costo == antes.pagos[j].costo
            &&& despues.pagos[j].fecha_vencimiento == antes.pagos[j].fecha_vencimiento
            &&& despues.pagos[j].tiene_descuento == antes.pagos[j].tiene_descuento
            &&& antes.pagos[j].pagado ==> despues.pagos[j] == antes.pagos[j]
        }
}

/// Registering a member, issuing a payment and settling one each continue
/// the history of the books.
pub proof fn lema_operaciones_continuan(
    v: ClubView,
    dni: u128,
    cate: Seq<char>,
    act: Seq<char>,
    costo: u128,
    vencimiento: u64,
    descuento: bool,
    ahora: u64,
)
    requires
        v.bien_formado(),
    ensures
        continua(v, v.registro(dni, cate, act, ahora)),
        continua(v, v.con_pago(dni, costo, vencimiento, descuento)),
        continua(v, v.tras_renovacion(dni)),
        v.existe_socio(dni) && v.socios[v.posicion(dni).unwrap()].pagos_pendientes.len() > 0
            ==> continua(v, v.cobro(dni, ahora)),
{
    lema_posicion(v, dni);
    if v.existe_socio(dni) && v.socios[v.posicion(dni).unwrap()].pagos_pendientes.len() > 0 {
        lema_tras_cobro_bien_formado(v, v.posicion(dni).unwrap(), ahora);
    }
}

/// The history of the books is continued step by step.
pub proof fn lema_continua_transitiva(a: ClubView, b: ClubView, c: ClubView)
    requires
        continua(a, b),
        continua(b, c),
    ensures
        continua(a, c),
{
    assert forall|i: int| 0 <= i < a.socios.len() implies (#[trigger] c.socios[i]).dni
        == a.socios[i].dni && c.socios[i].categoria == a.socios[i].categoria
        && c.socios[i].actividad == a.socios[i].actividad && c.socios[i].fecha_registro
        == a.socios[i].fecha_registro by {
        assert(b.socios[i].dni == a.socios[i].dni);
    }
    assert forall|j: int| 0 <= j < a.pagos.len() implies {
        &&& (#[trigger] c.pagos[j]).id == a.pagos[j].id
        &&& c.pagos[j].dni_socio == a.pagos[j].dni_socio
        &&& c.pagos[j].costo == a.pagos[j].costo
        &&& c.pagos[j].fecha_vencimiento == a.pagos[j].fecha_vencimiento
        &&& c.pagos[j].tiene_descuento == a.pagos[j].tiene_descuento
        &&& a.pagos[j].pagado ==> c.pagos[j] == a.pagos[j]
    } by {
        assert(b.pagos[j].id == a.pagos[j].id);
    }
}

// ----- payments and queues -----

/// A registered member is found at the same position in books whose
/// registry begins with the same dnis.
pub proof fn lema_posicion_estable(v: ClubView, w: ClubView, dni: u128)
    requires
        v.socios.len() <= w.socios.len(),
        forall|i: int| 0 <= i < v.socios.len() ==> (#[trigger] w.socios[i]).dni == v.socios[i].dni,
        v.existe_socio(dni),
    ensures
        w.posicion(dni) == v.posicion(dni),
{
    lema_posicion(v, dni);
    lema_posicion(w, dni);
    let i = v.posicion(dni).unwrap();
    assert(w.socios[i].dni == dni);
    assert(w.dnis()[i] == dni);
    assert(w.dnis().contains(dni));
    let k = w.posicion(dni).unwrap();
    if k < i {
        assert(w.socios[k].dni == v.socios[k].dni);
    }
}

/// Registering a member keeps every payment in a queue of its member.
pub proof fn lema_registro_sin_huerfanos(
    v: ClubView,
    dni: u128,
    cate: Seq<char>,
    act: Seq<char>,
    ahora: u64,
)
    requires
        v.bien_formado(),
        v.sin_huerfanos(),
        v.pagos.len() < usize::MAX,
        !v.existe_socio(dni),
    ensures
        v.registro(dni, cate, act, ahora).sin_huerfanos(),
{
    let w = v.registro(dni, cate, act, ahora);
    let n = v.pagos.len() as int;
    lema_posicion(v, dni);
    assert forall|j: int| 0 <= j < w.pagos.len() implies #[trigger] w.en_cola(j) by {
        if j < n {
            assert(v.en_cola(j));
            let d = v.pagos[j].dni_socio;
            lema_posicion(v, d);
            lema_posicion_estable(v, w, d);
            let i = v.posicion(d).unwrap();
            assert(w.socios[i] == v.socios[i]);
        } else {
            lema_posicion(w, dni);
            let i = v.socios.len() as int;
            assert(w.socios[i].dni == dni);
            assert(w.dnis()[i] == dni);
            assert(w.dnis().contains(dni));
            let k = w.posicion(dni).unwrap();
            if k < i {
                assert(w.socios[k] == v.socios[k]);
            }
            assert(w.socios[i].pagos_pendientes[0] == (j + 1) as u128);
        }
    }
}

/// Issuing a payment to a registered member keeps every payment in a queue
/// of its member.
pub proof fn lema_con_pago_sin_huerfanos(
    v: ClubView,
    dni: u128,
    costo: u128,
    vencimiento: u64,
    descuento: bool,
)
    requires
        v.bien_formado(),
        v.sin_huerfanos(),
        v.pagos.len() < usize::MAX,
        v.existe_socio(dni),
    ensures
        v.con_pago(dni, costo, vencimiento, descuento).sin_huerfanos(),
{
    let w = v.con_pago(dni, costo, vencimiento, descuento);
    let n = v.pagos.len() as int;
    lema_posicion(v, dni);
    let p = v.posicion(dni).unwrap();
    assert forall|j: int| 0 <= j < w.pagos.len() implies #[trigger] w.en_cola(j) by {
        let d = w.pagos[j].dni_socio;
        if j < n {
            assert(v.en_cola(j));
            lema_posicion(v, d);
        }
        lema_posicion_estable(v, w, d);
        let i = v.posicion(d).unwrap();
        let id = (j + 1) as u128;
        if i == p {
            assert(w.socios[i].pagos_pendientes == v.socios[i].pagos_pendientes.push(
                v.siguiente_id(),
            ));
            if j < n {
                if v.socios[i].pagos_pendientes.contains(id) {
                    let k = choose|k: int|
                        0 <= k < v.socios[i].pagos_pendientes.len()
                            && v.socios[i].pagos_pendientes[k] == id;
                    assert(w.socios[i].pagos_pendientes[k] == id);
                }
            } else {
                assert(w.socios[i].pagos_pendientes[v.socios[i].pagos_pendientes.len() as int]
                    == id);
            }
        } else {
            assert(w.socios[i] == v.socios[i]);
        }
    }
}

/// Settling a payment keeps every payment in a queue of its member.
pub proof fn lema_cobro_sin_huerfanos(v: ClubView, dni: u128, ahora: u64)
    requires
        v.bien_formado(),
        v.sin_huerfanos(),
        v.existe_socio(dni),
        v.socios[v.posicion(dni).unwrap()].pagos_pendientes.len() > 0,
    ensures
        v.cobro(dni, ahora).sin_huerfanos(),
{
    let w = v.cobro(dni, ahora);
    lema_posicion(v, dni);
    let p = v.posicion(dni).unwrap();
    lema_tras_cobro_bien_formado(v, p, ahora);
    let cola = v.socios[p].pagos_pendientes;
    assert forall|j: int| 0 <= j < w.pagos.len() implies #[trigger] w.en_cola(j) by {
        assert(v.en_cola(j));
        let d = v.pagos[j].dni_socio;
        assert(w.pagos[j].dni_socio == d);
        lema_posicion(v, d);
        lema_posicion_estable(v, w, d);
        let i = v.posicion(d).unwrap();
        let id = (j + 1) as u128;
        if i == p {
            if cola.contains(id) {
                let k = choose|k: int| 0 <= k < cola.len() && cola[k] == id;
                if k == 0 {
                    assert(w.socios[i].pagos_realizados[v.socios[i].pagos_realizados.len() as int]
                        == id);
                } else {
                    assert(w.socios[i].pagos_pendientes[k - 1] == id);
                }
            } else {
                let k = choose|k: int|
                    0 <= k < v.socios[i].pagos_realizados.len() && v.socios[i].pagos_realizados[k]
                        == id;
                assert(w.socios[i].pagos_realizados[k] == id);
            }
        } else {
            assert(w.socios[i] == v.socios[i]);
        }
    }
}

// ----- from the ledger to the reports -----

/// The dnis of a snapshot of the books are the dnis of the registry.
pub proof fn lema_dnis_informados(v: ClubView)
    ensures
        socios_informados(v).map_values(|s: SocioInfoView| s.dni) == v.dnis(),
{
    assert(socios_informados(v).map_values(|s: SocioInfoView| s.dni) =~= v.dnis());
}

/// Whether a payment named in the pending queue of the member at position
/// `i` has fallen due before the time `hoy`.
pub open spec fn adeuda(v: ClubView, i: int, hoy: u64) -> bool {
    exists|k: int|
        0 <= k < v.socios[i].pagos_pendientes.len() && hoy > v.pagos[(
        #[trigger] v.socios[i].pagos_pendientes[k]) - 1].fecha_vencimiento
}

/// A member is reported as in arrears exactly when a payment of the
/// member's pending queue has fallen due.
pub proof fn lema_moroso_si_adeuda(v: ClubView, i: int, hoy: u64)
    requires
        v.bien_formado(),
        v.sin_huerfanos(),
        0 <= i < v.socios.len(),
    ensures
        moroso(pagos_del_libro(v), v.socios[i].dni, hoy) <==> adeuda(v, i, hoy),
{
    let dni = v.socios[i].dni;
    let libro = pagos_del_libro(v);
    let cola = v.socios[i].pagos_pendientes;
    assert(v.colas_validas(i));
    if adeuda(v, i, hoy) {
        let k = choose|k: int|
            0 <= k < cola.len() && hoy > v.pagos[(#[trigger] cola[k]) - 1].fecha_vencimiento;
        assert(v.es_pago_de(cola[k], dni, false));
        let j = cola[k] - 1;
        assert(libro[j].dni_socio == dni && adeudado(libro[j], hoy));
    }
    if moroso(libro, dni, hoy) {
        let j = choose|j: int|
            0 <= j < libro.len() && (#[trigger] libro[j]).dni_socio == dni && adeudado(
                libro[j],
                hoy,
            );
        assert(v.en_cola(j));
        lema_posicion_de(v, i);
        let id = (j + 1) as u128;
        if v.socios[i].pagos_realizados.contains(id) {
            let k = choose|k: int|
                0 <= k < v.socios[i].pagos_realizados.len() && v.socios[i].pagos_realizados[k]
                    == id;
            assert(v.es_pago_de(v.socios[i].pagos_realizados[k], dni, true));
        }
        let k = choose|k: int| 0 <= k < cola.len() && cola[k] == id;
        assert(hoy > v.pagos[cola[k] - 1].fecha_vencimiento);
    }
}

/// Once every member has paid all that was pending, nobody is reported as
/// in arrears, at whatever time the report is made.
pub proof fn lema_sin_pendientes_no_hay_morosos(v: ClubView, hoy: u64)
    requires
        v.bien_formado(),
        v.sin_huerfanos(),
        forall|i: int|
            0 <= i < v.socios.len() ==> (#[trigger] v.socios[i]).pagos_pendientes.len() == 0,
    ensures
        morosos(v.dnis(), pagos_del_libro(v), hoy) == Seq::<u128>::empty(),
{
    let m = morosos(v.dnis(), pagos_del_libro(v), hoy);
    lema_morosos(v.dnis(), pagos_del_libro(v), hoy);
    if m.len() > 0 {
        let dni = m[0];
        assert(v.dnis().contains(dni));
        let i = choose|i: int| 0 <= i < v.dnis().len() && v.dnis()[i] == dni;
        lema_moroso_si_adeuda(v, i, hoy);
        assert(v.socios[i].pagos_pendientes.len() == 0);
    }
    assert(m =~= Seq::<u128>::empty());
}

/// What a member's payments amount to in a period, once one more payment
/// is on the ledger: the payment's amount is added where the payment is
/// the member's and is dated in the period.
pub proof fn lema_recaudado_de_push(
    pagos: Seq<PagoInfo>,
    p: PagoInfo,
    dni: u128,
    mes: u64,
    anio: u64,
)
    ensures
        recaudado_de(pagos.push(p), dni, mes, anio) == recaudado_de(pagos, dni, mes, anio)
            + if p.dni_socio == dni && en_periodo(p, mes, anio) {
            p.costo as nat
        } else {
            0
        },
{
    assert(pagos.push(p).drop_last() =~= pagos);
}

/// A member without payments brought in nothing.
pub proof fn lema_recaudado_de_nadie(pagos: Seq<PagoInfo>, dni: u128, mes: u64, anio: u64)
    requires
        forall|j: int| 0 <= j < pagos.len() ==> (#[trigger] pagos[j]).dni_socio != dni,
    ensures
        recaudado_de(pagos, dni, mes, anio) == 0,
    decreases pagos.len(),
{
    if pagos.len() > 0 {
        lema_recaudado_de_nadie(pagos.drop_last(), dni, mes, anio);
    }
}

/// A payment of somebody who is no member changes what no category
/// brought in.
pub proof fn lema_recaudado_por_ajeno(
    socios: Seq<SocioInfoView>,
    pagos: Seq<PagoInfo>,
    p: PagoInfo,
    cate: Seq<char>,
    mes: u64,
    anio: u64,
)
    requires
        forall|i: int| 0 <= i < socios.len() ==> (#[trigger] socios[i]).dni != p.dni_socio,
    ensures
        recaudado_por(socios, pagos.push(p), cate, mes, anio) == recaudado_por(
            socios,
            pagos,
            cate,
            mes,
            anio,
        ),
    decreases socios.len(),
{
    if socios.len() > 0 {
        lema_recaudado_por_ajeno(socios.drop_last(), pagos, p, cate, mes, anio);
        lema_recaudado_de_push(pagos, p, socios.last().dni, mes, anio);
    }
}

/// What a registration brings in: once a member is registered, the month
/// in which the first payment falls due shows the price of the member's
/// category in that category, over and above what it showed before, and
/// every other category and every other month show what they showed
/// before.
pub proof fn lema_registro_recauda(
    v: ClubView,
    caller: AccountId,
    dni: u128,
    cate: Seq<char>,
    act: Seq<char>,
    ahora: u64,
    bolsa: Seq<char>,
    mes: u64,
    anio: u64,
)
    requires
        v.bien_formado(),
        v.sin_huerfanos(),
        v.rechazo_registro(caller, dni, cate, act) is None,
        ahora + PLAZO_PRIMER_PAGO <= u64::MAX,
    ensures
        ({
            let w = v.registro(dni, cate, act, ahora);
            let categoria = categoria_de_nombre(cate).unwrap();
            let vence = fecha_de((ahora + PLAZO_PRIMER_PAGO) as u64);
            recaudado_por(socios_informados(w), pagos_del_libro(w), bolsa, mes, anio)
                == recaudado_por(socios_informados(v), pagos_del_libro(v), bolsa, mes, anio)
                + if bolsa == categoria.spec_nombre() && vence.mes == mes && vence.anio == anio {
                v.precio_categoria.precio(categoria).unwrap() as nat
            } else {
                0
            }
        }),
{
    let w = v.registro(dni, cate, act, ahora);
    let socios = socios_informados(v);
    let pagos = pagos_del_libro(v);
    let nuevo_socio = socios_informados(w).last();
    let nuevo_pago = pagos_del_libro(w).last();
    assert(socios_informados(w) =~= socios.push(nuevo_socio));
    assert(pagos_del_libro(w) =~= pagos.push(nuevo_pago));
    assert(socios.push(nuevo_socio).drop_last() =~= socios);
    lema_posicion(v, dni);
    assert forall|i: int| 0 <= i < socios.len() implies (#[trigger] socios[i]).dni != dni by {
        assert(v.socios[i].dni != dni);
    }
    assert forall|j: int| 0 <= j < pagos.len() implies (#[trigger] pagos[j]).dni_socio != dni by {
        assert(v.en_cola(j));
        lema_posicion(v, v.pagos[j].dni_socio);
    }
    lema_recaudado_por_ajeno(socios, pagos, nuevo_pago, bolsa, mes, anio);
    lema_recaudado_de_push(pagos, nuevo_pago, dni, mes, anio);
    lema_recaudado_de_nadie(pagos, dni, mes, anio);
}

// ----- reports -----

/// Whoever is listed as able to attend an activity is a reported member
/// who is not in arrears and is of category "A", or of category "B" with
/// that activity. A member of category "C" is never listed, whatever
/// activity is reported of the member.
pub proof fn lema_asistentes(
    socios: Seq<SocioInfoView>,
    pagos: Seq<PagoInfo>,
    act: Seq<char>,
    hoy: u64,
    k: int,
)
    requires
        0 <= k < asistentes(socios, pagos, act, hoy).len(),
    ensures
        ({
            let s = asistentes(socios, pagos, act, hoy)[k];
            &&& socios.contains(s)
            &&& !moroso(pagos, s.dni, hoy)
            &&& s.categoria == "A"@ || (s.categoria == "B"@ && s.actividad == act)
            &&& s.categoria != "C"@
        }),
{
    let pred = |s: SocioInfoView| puede_asistir(s, pagos, act, hoy);
    socios.lemma_filter_pred(pred, k);
    let s = asistentes(socios, pagos, act, hoy)[k];
    assert(socios.filter(pred).contains(s));
    socios.lemma_filter_contains_rev(pred, s);
    reveal_strlit("A");
    reveal_strlit("B");
    reveal_strlit("C");
    assert("A"@[0] == 'A');
    assert("B"@[0] == 'B');
    assert("C"@[0] == 'C');
}

/// Every member listed as in arrears is one of the members asked about and
/// is in arrears, and no member asked about once is listed twice.
pub proof fn lema_morosos(dnis: Seq<u128>, pagos: Seq<PagoInfo>, hoy: u64)
    ensures
        forall|k: int|
            0 <= k < morosos(dnis, pagos, hoy).len() ==> dnis.contains(
                #[trigger] morosos(dnis, pagos, hoy)[k],
            ) && moroso(pagos, morosos(dnis, pagos, hoy)[k], hoy),
        forall|dni: u128|
            dnis.contains(dni) && moroso(pagos, dni, hoy) ==> #[trigger] morosos(
                dnis,
                pagos,
                hoy,
            ).contains(dni),
        dnis.no_duplicates() ==> morosos(dnis, pagos, hoy).no_duplicates(),
{
    let pred = |dni: u128| moroso(pagos, dni, hoy);
    let m = morosos(dnis, pagos, hoy);
    assert forall|k: int| 0 <= k < m.len() implies dnis.contains(#[trigger] m[k]) && moroso(
        pagos,
        m[k],
        hoy,
    ) by {
        dnis.lemma_filter_pred(pred, k);
        assert(dnis.filter(pred).contains(m[k]));
        dnis.lemma_filter_contains_rev(pred, m[k]);
    }
    assert forall|dni: u128|
        dnis.contains(dni) && moroso(pagos, dni, hoy) implies #[trigger] m.contains(dni) by {
        let j = choose|j: int| 0 <= j < dnis.len() && dnis[j] == dni;
        dnis.lemma_filter_contains(pred, j);
    }
    if dnis.no_duplicates() {
        lema_filtro_sin_repetidos(dnis, pred);
    }
}

/// A list without repetitions stays without them when filtered.
proof fn lema_filtro_sin_repetidos<A>(s: Seq<A>, pred: spec_fn(A) -> bool)
    requires
        s.no_duplicates(),
    ensures
        s.filter(pred).no_duplicates(),
    decreases s.len(),
{
    reveal(Seq::filter);
    if s.len() > 0 {
        let resto = s.drop_last();
        let f = resto.filter(pred);
        lema_filtro_sin_repetidos(resto, pred);
        if pred(s.last()) {
            assert forall|k: int| 0 <= k < f.len() implies f[k] != s.last() by {
                assert(f.contains(f[k]));
                resto.lemma_filter_contains_rev(pred, f[k]);
                let j = choose|j: int| 0 <= j < resto.len() && resto[j] == f[k];
                assert(s[j] == f[k]);
            }
        }
    }
}

} // verus!
