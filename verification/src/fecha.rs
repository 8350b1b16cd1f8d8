//! Calendar dates, and the date of a time stamp.
//!
//! Days are numbered from the first of January 1970, which is day 0. A
//! date is described by its day number; the conversion from a time stamp
//! walks the calendar month by month and is proved to arrive at the one
//! date with the right day number.

use vstd::prelude::*;

verus! {

/// A date of the Gregorian calendar.
#[derive(Clone, Copy, Debug, PartialEq, Eq, Structural)]
pub struct Fecha {
    pub dia: u64,
    pub mes: u64,
    pub anio: u64,
}

/// A year is a leap year when it is a multiple of 4, except that a
/// multiple of 100 is one only when it is also a multiple of 400.
pub open spec fn anio_bisiesto(anio: int) -> bool {
    anio % 4 == 0 && (anio % 100 != 0 || anio % 400 == 0)
}

/// The number of days of a month; 0 for a month that is none of 1 to 12.
pub open spec fn largo_del_mes(mes: int, anio: int) -> int {
    if mes == 1 || mes == 3 || mes == 5 || mes == 7 || mes == 8 || mes == 10 || mes == 12 {
        31
    } else if mes == 4 || mes == 6 || mes == 9 || mes == 11 {
        30
    } else if mes == 2 {
        if anio_bisiesto(anio) {
            29
        } else {
            28
        }
    } else {
        0
    }
}

/// The number of days of a year.
pub open spec fn largo_del_anio(anio: int) -> int {
    if anio_bisiesto(anio) {
        366
    } else {
        365
    }
}

/// How many of the years 1 to `anio - 1` are leap years.
pub open spec fn bisiestos_antes_de(anio: int) -> int {
    (anio - 1) / 4 - (anio - 1) / 100 + (anio - 1) / 400
}

/// The day number of the first of January of a year.
pub open spec fn dias_antes_del_anio(anio: int) -> int {
    365 * (anio - 1970) + bisiestos_antes_de(anio) - bisiestos_antes_de(1970)
}

/// The number of days of a year that lie before the first of a month.
pub open spec fn dias_antes_del_mes(mes: int, anio: int) -> int
    decreases mes,
{
    if mes <= 1 {
        0
    } else {
        dias_antes_del_mes(mes - 1, anio) + largo_del_mes(mes - 1, anio)
    }
}

/// The date that lies `n` days after the first of January 1970: the one
/// valid date with day number `n`.
pub open spec fn fecha_de_dias(n: int) -> Fecha {
    choose|f: Fecha| f.valida() && f.numero_de_dia() == n
}

/// The whole days that have passed since the epoch at a time stamp in
/// milliseconds: the seconds are the stamp divided by 1000, the days the
/// seconds divided by 86 400, both rounded down.
pub open spec fn dias_de_milisegundos(time: u64) -> int {
    (time as int / 1000) / 86400
}

/// The date on which a time stamp in milliseconds falls.
pub open spec fn fecha_de(time: u64) -> Fecha {
    fecha_de_dias(dias_de_milisegundos(time))
}

impl Fecha {
    /// Whether the month is one of 1 to 12 and the day one of that month.
    pub open spec fn valida(self) -> bool {
        &&& 1 <= self.mes <= 12
        &&& 1 <= self.dia <= largo_del_mes(self.mes as int, self.anio as int)
    }

    /// The number of days from the first of January 1970 to this date.
    pub open spec fn numero_de_dia(self) -> int {
        dias_antes_del_anio(self.anio as int) + dias_antes_del_mes(
            self.mes as int,
            self.anio as int,
        ) + self.dia - 1
    }

    /// Whether the date's year is a leap year.
    pub fn es_bisiesto(&self) -> (r: bool)
        ensures
            r == anio_bisiesto(self.anio as int),
    {
        let mut ok: bool = true;
        if self.anio % 4 == 0 {
            if self.anio % 100 == 0 && self.anio % 400 != 0 {
                ok = false;
            }
        } else {
            ok = false;
        }
        ok
    }

    /// Moves the date forward by `cant` days.
    ///
    /// The date advances month by month: while the remaining days do not
    /// fit in the current month, the rest of the month is consumed and the
    /// next month begins, the year turning after December.
    pub fn sumar_dias(&mut self, cant: u64)
        requires
            old(self).valida(),
            old(self).anio + cant <= u64::MAX,
        ensures
            final(self).valida(),
            final(self).numero_de_dia() == old(self).numero_de_dia() + cant,
    {
        let mut cant: u64 = cant;
        let ghost total: int = self.numero_de_dia() + cant;
        while cant > 0
            invariant
                1 <= self.mes <= 12,
                self.dia <= largo_del_mes(self.mes as int, self.anio as int),
                self.dia == 0 ==> cant > 0,
                self.numero_de_dia() + cant == total,
                self.anio + cant <= u64::MAX + (if self.dia == 0 {
                    1int
                } else {
                    0int
                }),
            decreases cant, self.dia,
        {
            let d: u64 = dias_del_mes(self.mes, self.anio);
            if cant <= d - self.dia {
                self.dia += cant;
                cant -= cant;
            } else {
                proof {
                    lema_dias_antes_del_mes(self.anio as int);
                    lema_paso_de_anio(self.anio as int);
                }
                cant = cant - (d - self.dia);
                self.dia = 0;
                self.mes += 1;
                if self.mes == 13 {
                    self.anio += 1;
                    self.mes = 1;
                }
            }
        }
    }
}

/// The number of days of a month; 0 for a month that is none of 1 to 12.
pub fn dias_del_mes(mes: u64, anio: u64) -> (d: u64)
    ensures
        d == largo_del_mes(mes as int, anio as int),
{
    match mes {
        1 | 3 | 5 | 7 | 8 | 10 | 12 => 31,
        4 | 6 | 9 | 11 => 30,
        2 => {
            let f = Fecha { dia: 1, mes, anio };
            if f.es_bisiesto() {
                29
            } else {
                28
            }
        },
        _ => 0,
    }
}

/// The date on which a time stamp in milliseconds falls.
pub fn calcular_fecha(time: u64) -> (f: Fecha)
    ensures
        f.valida(),
        f.numero_de_dia() == dias_de_milisegundos(time),
        f == fecha_de(time),
{
    let mut f = Fecha { dia: 1, mes: 1, anio: 1970 };
    let segundos: u64 = time / 1000;
    let dias: u64 = segundos / 86400;
    proof {
        reveal_with_fuel(dias_antes_del_mes, 2);
    }
    f.sumar_dias(dias);
    proof {
        lema_fecha_unica(f, fecha_de(time));
    }
    f
}

/// The days that lie before each month of a year.
pub proof fn lema_dias_antes_del_mes(anio: int)
    ensures
        dias_antes_del_mes(1, anio) == 0,
        dias_antes_del_mes(2, anio) == 31,
        dias_antes_del_mes(3, anio) == 31 + largo_del_mes(2, anio),
        dias_antes_del_mes(4, anio) == 62 + largo_del_mes(2, anio),
        dias_antes_del_mes(5, anio) == 92 + largo_del_mes(2, anio),
        dias_antes_del_mes(6, anio) == 123 + largo_del_mes(2, anio),
        dias_antes_del_mes(7, anio) == 153 + largo_del_mes(2, anio),
        dias_antes_del_mes(8, anio) == 184 + largo_del_mes(2, anio),
        dias_antes_del_mes(9, anio) == 215 + largo_del_mes(2, anio),
        dias_antes_del_mes(10, anio) == 245 + largo_del_mes(2, anio),
        dias_antes_del_mes(11, anio) == 276 + largo_del_mes(2, anio),
        dias_antes_del_mes(12, anio) == 306 + largo_del_mes(2, anio),
        dias_antes_del_mes(12, anio) + 31 == largo_del_anio(anio),
{
    reveal_with_fuel(dias_antes_del_mes, 13);
}

/// The first of January of the next year lies a year's length after the
/// first of January of this year.
pub proof fn lema_paso_de_anio(anio: int)
    ensures
        dias_antes_del_anio(anio + 1) == dias_antes_del_anio(anio) + largo_del_anio(anio),
{
    lema_cociente_siguiente(anio, 4);
    lema_cociente_siguiente(anio, 100);
    lema_cociente_siguiente(anio, 400);
}

/// A quotient grows by one exactly at the multiples of the divisor.
proof fn lema_cociente_siguiente(y: int, k: int)
    requires
        k > 0,
    ensures
        y / k - (y - 1) / k == if y % k == 0 {
            1int
        } else {
            0int
        },
{
    let q = y / k;
    let r = y % k;
    vstd::arithmetic::div_mod::lemma_fundamental_div_mod(y, k);
    if r == 0 {
        assert(y - 1 == (q - 1) * k + (k - 1)) by (nonlinear_arith)
            requires
                y == k * q + r,
                r == 0,
        ;
        vstd::arithmetic::div_mod::lemma_fundamental_div_mod_converse(y - 1, k, q - 1, k - 1);
    } else {
        assert(y - 1 == q * k + (r - 1)) by (nonlinear_arith)
            requires
                y == k * q + r,
        ;
        vstd::arithmetic::div_mod::lemma_fundamental_div_mod_converse(y - 1, k, q, r - 1);
    }
}

/// Later years begin on later days.
pub proof fn lema_anios_crecientes(a: int, b: int)
    requires
        a <= b,
    ensures
        dias_antes_del_anio(a) + 365 * (b - a) <= dias_antes_del_anio(b),
    decreases b - a,
{
    if a < b {
        lema_anios_crecientes(a, b - 1);
        lema_paso_de_anio(b - 1);
    }
}

/// Two valid dates with the same day number are the same date.
pub proof fn lema_fecha_unica(f: Fecha, g: Fecha)
    requires
        f.valida(),
    ensures
        g == fecha_de_dias(f.numero_de_dia()) ==> f == g,
        g.valida() && g.numero_de_dia() == f.numero_de_dia() ==> f == g,
{
    let c = fecha_de_dias(f.numero_de_dia());
    assert(c.valida() && c.numero_de_dia() == f.numero_de_dia());
    lema_orden_de_fechas(f, c);
    lema_orden_de_fechas(c, f);
    if g.valida() && g.numero_de_dia() == f.numero_de_dia() {
        lema_orden_de_fechas(f, g);
        lema_orden_de_fechas(g, f);
    }
}

/// A valid date that comes earlier in the calendar has a smaller day
/// number.
pub proof fn lema_orden_de_fechas(f: Fecha, g: Fecha)
    requires
        f.valida(),
        g.valida(),
    ensures
        f.anio < g.anio || (f.anio == g.anio && (f.mes < g.mes || (f.mes == g.mes && f.dia
            < g.dia))) ==> f.numero_de_dia() < g.numero_de_dia(),
{
    lema_dias_antes_del_mes(f.anio as int);
    lema_dias_antes_del_mes(g.anio as int);
    if f.anio < g.anio {
        lema_paso_de_anio(f.anio as int);
        lema_anios_crecientes(f.anio as int + 1, g.anio as int);
    }
}

} // verus!
