//! Membership, dues and reporting for a sports club.
//!
//! The crate keeps a registry of members and a ledger of their monthly
//! payments, decides who may change them, grants a discount to members who
//! pay on time, and answers three reporting questions from a snapshot of the
//! books: who is in arrears, who may attend an activity, and how much each
//! category brought in during a given month.
//!
//! Every function is verified against a mathematical model:
//!
//! - [`modelo`] describes the books as a value, [`ClubView`], and says what
//!   each operation makes of them and what always holds of them;
//! - [`club`], [`registro`] and [`cobros`] hold the operations of [`Club`],
//!   and [`auditoria`] a test of the invariant for books that come from
//!   elsewhere;
//! - [`fecha`] turns time stamps into calendar dates;
//! - [`reporte`] holds the reports and their model;
//! - [`invariante`] proves that the operations keep the invariant, and
//!   [`leyes`] states what follows for sequences of operations and for the
//!   reports.
//!
//! The club does not know who calls it nor what time it is: operations take
//! the caller and the time as arguments. Every time stamp counts
//! milliseconds since the first of January 1970.

pub mod auditoria;
pub mod categoria;
pub mod club;
pub mod cobros;
pub mod cuenta;
pub mod errores;
pub mod fecha;
pub mod invariante;
pub mod leyes;
pub mod modelo;
pub mod pago;
pub mod precios;
pub mod registro;
pub mod reporte;
pub mod socio;
pub mod texto;

pub use categoria::{Actividad, TipoCategoria};
pub use club::Club;
pub use cobros::Adicional;
pub use cuenta::AccountId;
pub use errores::ClubError;
pub use fecha::Fecha;
pub use modelo::ClubView;
pub use pago::Pago;
pub use precios::TablaPrecios;
pub use reporte::{Info, PagoInfo, Reporte, SocioInfo};
pub use socio::{Socio, SocioView};
