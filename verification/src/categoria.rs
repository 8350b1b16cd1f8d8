//! Membership categories and the activities they give access to.

use crate::texto::textos_iguales;
use vstd::prelude::*;

verus! {

/// What a member has signed up for: `A` opens every activity, `B` exactly one
/// chosen activity, `C` none.
#[derive(Clone, Copy, Debug, PartialEq, Eq, Structural)]
pub enum TipoCategoria {
    A,
    B,
    C,
}

/// The sports the club offers. `TODOS` stands for all of them and is what a
/// member of category `A` carries; the other seven are the concrete ones.
#[derive(Clone, Copy, Debug, PartialEq, Eq, Structural)]
pub enum Actividad {
    FUTBOL,
    BASQUET,
    RUGBY,
    HOCKEY,
    NATACION,
    TENIS,
    PADDLE,
    TODOS,
}

/// The category that a name denotes, if any.
pub open spec fn categoria_de_nombre(s: Seq<char>) -> Option<TipoCategoria> {
    if s == "A"@ {
        Some(TipoCategoria::A)
    } else if s == "B"@ {
        Some(TipoCategoria::B)
    } else if s == "C"@ {
        Some(TipoCategoria::C)
    } else {
        None
    }
}

/// The concrete activity that a name denotes, if any. "TODOS" denotes none.
pub open spec fn actividad_de_nombre(s: Seq<char>) -> Option<Actividad> {
    if s == "FUTBOL"@ {
        Some(Actividad::FUTBOL)
    } else if s == "BASQUET"@ {
        Some(Actividad::BASQUET)
    } else if s == "RUGBY"@ {
        Some(Actividad::RUGBY)
    } else if s == "HOCKEY"@ {
        Some(Actividad::HOCKEY)
    } else if s == "NATACION"@ {
        Some(Actividad::NATACION)
    } else if s == "TENIS"@ {
        Some(Actividad::TENIS)
    } else if s == "PADDLE"@ {
        Some(Actividad::PADDLE)
    } else {
        None
    }
}

/// The name under which the registry reports a member's activity: the
/// activity's own name, or "NADA" for a member without one.
pub open spec fn nombre_de_actividad(a: Option<Actividad>) -> Seq<char> {
    match a {
        Some(act) => act.spec_nombre(),
        None => "NADA"@,
    }
}

impl TipoCategoria {
    /// The name of the category.
    pub open spec fn spec_nombre(self) -> Seq<char> {
        match self {
            TipoCategoria::A => "A"@,
            TipoCategoria::B => "B"@,
            TipoCategoria::C => "C"@,
        }
    }

    /// Reads a category from its name.
    pub fn desde_nombre(s: &str) -> (r: Option<TipoCategoria>)
        ensures
            r == categoria_de_nombre(s@),
    {
        if textos_iguales(s, "A") {
            Some(TipoCategoria::A)
        } else if textos_iguales(s, "B") {
            Some(TipoCategoria::B)
        } else if textos_iguales(s, "C") {
            Some(TipoCategoria::C)
        } else {
            None
        }
    }

    /// Writes the category's name.
    pub fn nombre(&self) -> (r: String)
        ensures
            r@ == self.spec_nombre(),
    {
        match self {
            TipoCategoria::A => "A".to_string(),
            TipoCategoria::B => "B".to_string(),
            TipoCategoria::C => "C".to_string(),
        }
    }
}

impl Actividad {
    /// The name of the activity.
    pub open spec fn spec_nombre(self) -> Seq<char> {
        match self {
            Actividad::FUTBOL => "FUTBOL"@,
            Actividad::BASQUET => "BASQUET"@,
            Actividad::RUGBY => "RUGBY"@,
            Actividad::HOCKEY => "HOCKEY"@,
            Actividad::NATACION => "NATACION"@,
            Actividad::TENIS => "TENIS"@,
            Actividad::PADDLE => "PADDLE"@,
            Actividad::TODOS => "TODOS"@,
        }
    }

    /// Whether this is one of the seven concrete activities.
    pub open spec fn es_concreta(self) -> bool {
        self != Actividad::TODOS
    }

    /// Reads a concrete activity from its name.
    pub fn desde_nombre(s: &str) -> (r: Option<Actividad>)
        ensures
            r == actividad_de_nombre(s@),
    {
        if textos_iguales(s, "FUTBOL") {
            Some(Actividad::FUTBOL)
        } else if textos_iguales(s, "BASQUET") {
            Some(Actividad::BASQUET)
        } else if textos_iguales(s, "RUGBY") {
            Some(Actividad::RUGBY)
        } else if textos_iguales(s, "HOCKEY") {
            Some(Actividad::HOCKEY)
        } else if textos_iguales(s, "NATACION") {
            Some(Actividad::NATACION)
        } else if textos_iguales(s, "TENIS") {
            Some(Actividad::TENIS)
        } else if textos_iguales(s, "PADDLE") {
            Some(Actividad::PADDLE)
        } else {
            None
        }
    }

    /// Writes the activity's name.
    pub fn nombre(&self) -> (r: String)
        ensures
            r@ == self.spec_nombre(),
    {
        match self {
            Actividad::FUTBOL => "FUTBOL".to_string(),
            Actividad::BASQUET => "BASQUET".to_string(),
            Actividad::RUGBY => "RUGBY".to_string(),
            Actividad::HOCKEY => "HOCKEY".to_string(),
            Actividad::NATACION => "NATACION".to_string(),
            Actividad::TENIS => "TENIS".to_string(),
            Actividad::PADDLE => "PADDLE".to_string(),
            Actividad::TODOS => "TODOS".to_string(),
        }
    }
}

/// The names of the categories are pairwise different, so a category is read
/// back from its own name.
pub proof fn lema_categoria_ida_y_vuelta(c: TipoCategoria)
    ensures
        categoria_de_nombre(c.spec_nombre()) == Some(c),
{
    reveal_strlit("A");
    reveal_strlit("B");
    reveal_strlit("C");
    assert("A"@[0] == 'A');
    assert("B"@[0] == 'B');
    assert("C"@[0] == 'C');
}

/// A concrete activity is read back from its own name, and the names "TODOS"
/// and "NADA" denote no concrete activity.
pub proof fn lema_actividad_ida_y_vuelta(a: Actividad)
    ensures
        a.es_concreta() ==> actividad_de_nombre(a.spec_nombre()) == Some(a),
        actividad_de_nombre("TODOS"@) is None,
        actividad_de_nombre("NADA"@) is None,
{
    reveal_strlit("FUTBOL");
    reveal_strlit("BASQUET");
    reveal_strlit("RUGBY");
    reveal_strlit("HOCKEY");
    reveal_strlit("NATACION");
    reveal_strlit("TENIS");
    reveal_strlit("PADDLE");
    reveal_strlit("TODOS");
    reveal_strlit("NADA");
    assert("FUTBOL"@[0] == 'F');
    assert("BASQUET"@[0] == 'B');
    assert("RUGBY"@[0] == 'R');
    assert("HOCKEY"@[0] == 'H');
    assert("NATACION"@[0] == 'N' && "NATACION"@[2] == 'T');
    assert("TENIS"@[0] == 'T' && "TENIS"@[1] == 'E');
    assert("PADDLE"@[0] == 'P');
    assert("TODOS"@[0] == 'T' && "TODOS"@[1] == 'O');
    assert("NADA"@[0] == 'N' && "NADA"@[2] == 'D');
}

/// A name denotes at most one concrete activity, and that activity carries
/// the name.
pub proof fn lema_nombre_de_actividad_leida(s: Seq<char>)
    ensures
        actividad_de_nombre(s) matches Some(b) ==> b.es_concreta() && b.spec_nombre() == s,
{
}

} // verus!
