//! The club's registry, ledger and access list, exercised through its public
//! operations.

use club::{
    AccountId, Actividad, Adicional, Club, ClubError, Pago, Socio, TablaPrecios, TipoCategoria,
};

/// The account that creates the club in these tests, and so owns it.
fn alice() -> AccountId {
    AccountId::from([1; 32])
}

/// The time at which the operations of these tests are made.
const AHORA: u64 = 0;

fn nuevo_club() -> Club {
    Club::new(alice())
}

fn agregar_direccion(c: &mut Club, clave: AccountId) -> bool {
    match c.agregar_direccion(alice(), clave) {
        Ok(ok) => ok,
        Err(ClubError::AddressAlreadyListed) => panic!("La direccion ya esta en el vector"),
        Err(ClubError::NotAuthorized) => panic!("No es el owner"),
        Err(e) => panic!("{:?}", e),
    }
}

fn eliminar_direccion(c: &mut Club, clave: AccountId) -> bool {
    match c.eliminar_direccion(alice(), clave) {
        Ok(ok) => ok,
        Err(ClubError::AddressNotListed) => {
            panic!("No esta guardada esta clave,por lo q no se puede eliminar")
        }
        Err(ClubError::NotAuthorized) => panic!("No es el owner"),
        Err(e) => panic!("{:?}", e),
    }
}

fn registrar_socio(c: &mut Club, dni: u128, cate: &str, act: &str) -> bool {
    match c.registrar_socio(alice(), AHORA, dni, cate.to_string(), act.to_string()) {
        Ok(ok) => ok,
        Err(ClubError::NotAuthorized) => panic!("no esta permitido para esta clave"),
        Err(ClubError::MemberAlreadyExists) => panic!("ya existe el socio"),
        Err(ClubError::InvalidCategory) => panic!("No se encontro la categoria"),
        Err(ClubError::InvalidActivity) => panic!("Actividad invalida"),
        Err(ClubError::CategoryNotPriced) => panic!("No hay precio para esa categoria"),
        Err(e) => panic!("{:?}", e),
    }
}

fn registro_pago(c: &mut Club, dni: u128, monto: u128) {
    match c.registro_pago(alice(), AHORA, dni, monto) {
        Ok(()) => {}
        Err(ClubError::NotAuthorized) => panic!("No esta permitido"),
        Err(ClubError::MemberNotFound) => panic!("El socio no existe"),
        Err(ClubError::NoPendingPayment) => panic!("No tiene pagos pendientes el socio"),
        Err(ClubError::AmountMismatch) => panic!("No paga lo q corresponde para su categoria"),
        Err(e) => panic!("{:?}", e),
    }
}

fn crear_pagos(c: &mut Club, dni: u128) -> bool {
    match c.crear_pagos(alice(), dni) {
        Ok(ok) => ok,
        Err(ClubError::NotAuthorized) => false,
        Err(ClubError::MemberNotFound) => panic!("No se encontro socio"),
        Err(ClubError::CategoryNotPriced) => panic!("No hay precio para esa categoria"),
        Err(e) => panic!("{:?}", e),
    }
}

fn get_pago(c: &Club, dni: u128) -> Vec<(u128, u64, bool, u128)> {
    match c.get_pago(alice(), dni) {
        Ok(v) => v,
        Err(ClubError::NotAuthorized) => Vec::new(),
        Err(ClubError::MemberNotFound) => panic!("No existe el socio"),
        Err(e) => panic!("{:?}", e),
    }
}

fn get_info_socio(c: &Club, i: u128) -> (String, String) {
    match c.get_info_socio(alice(), i) {
        Ok(t) => t,
        Err(ClubError::NotAuthorized) => panic!("No se acepta el pedido de lectura"),
        Err(ClubError::MemberNotFound) => panic!("No es la posicion de socio"),
        Err(e) => panic!("{:?}", e),
    }
}

fn consultar_pagos(c: &Club, dni: Option<u128>) -> Adicional {
    match c.consultar_pagos(alice(), dni) {
        Ok(a) => a,
        Err(ClubError::NotAuthorized) => panic!("No esta permitido"),
        Err(ClubError::MemberNotFound) => panic!("No se encontro el socio"),
        Err(e) => panic!("{:?}", e),
    }
}

fn calcular_precio(c: &Club, categoria: &TipoCategoria) -> u128 {
    match c.calcular_precio(categoria) {
        Ok(precio) => precio,
        Err(_) => panic!("No hay precio para esa categoria"),
    }
}

fn crear_socio(
    dni: u128,
    cate: &str,
    act: &str,
    fecha_registro: u64,
    pagos_realizados: Vec<u128>,
    pagos_pendientes: Vec<u128>,
    pagos_sin_atrasos: u128,
) -> Socio {
    match Socio::crear_socio(
        dni,
        cate.to_string(),
        act.to_string(),
        fecha_registro,
        pagos_realizados,
        pagos_pendientes,
        pagos_sin_atrasos,
    ) {
        Ok(s) => s,
        Err(ClubError::InvalidCategory) => panic!("No se encontro la categoria"),
        Err(ClubError::InvalidActivity) => panic!("Actividad invalida"),
        Err(e) => panic!("{:?}", e),
    }
}

fn elegir_actividad(act: &str) -> Option<Actividad> {
    match Socio::elegir_actividad(act.to_string()) {
        Some(a) => Some(a),
        None => panic!("Actividad invalida"),
    }
}

/// A club with the three members that most scenarios start from.
fn club_con_tres_socios() -> Club {
    let mut c = nuevo_club();
    let clave1 = [1; 32].into();
    agregar_direccion(&mut c, clave1);
    registrar_socio(&mut c, 234, "A", "todos");
    let clave2 = [2; 32].into();
    agregar_direccion(&mut c, clave2);
    registrar_socio(&mut c, 178, "B", "FUTBOL");
    let clave3 = [3; 32].into();
    agregar_direccion(&mut c, clave3);
    registrar_socio(&mut c, 543, "C", "NINGUNA");
    c
}

#[test]
#[should_panic(expected = "Esta vencida")]
fn esta_vencido_test() {
    let mut c = club_con_tres_socios();
    crear_pagos(&mut c, 543);
    registro_pago(&mut c, 543, 2000);
    let p = c.pagos.last();
    if let Some(g) = p {
        let vencida = g.esta_vencido();
        assert!(vencida, "Esta vencida");
    }
}

#[test]
fn crear_pago_test() {
    let mut c = club_con_tres_socios();
    crear_pagos(&mut c, 543);
    let fecha_registro = 000002345233;
    let id = c.pagos.len() as u128 + 1;
    let fecha_pago: Option<u64>;
    fecha_pago = None;
    let pagado = false;
    let tiene_descuento = false;
    let fecha_vencimiento = fecha_registro + (10 * 24 * 60 * 60);
    let pago: Pago =
        Pago::crear_pago(543, id, 2000, fecha_vencimiento, fecha_pago, pagado, tiene_descuento);
    assert_eq!(pago.dni_socio, 543);
}

#[test]
#[should_panic(expected = "No se encontro socio")]
fn crear_pagos_socio_invalidos_test() {
    let mut c = club_con_tres_socios();
    crear_pagos(&mut c, 44851840);
}

#[test]
fn crear_pagos_test() {
    let mut c = club_con_tres_socios();
    crear_pagos(&mut c, 543);
    crear_pagos(&mut c, 543);
    crear_pagos(&mut c, 543);
}

#[test]
fn crear_socio_test() {
    let pagos_realizados: Vec<u128> = Vec::new();
    let pagos_pendientes: Vec<u128> = Vec::new();
    let socio: Socio =
        crear_socio(44581840, "A", "TODOS", 0045675675, pagos_realizados, pagos_pendientes, 10);
    assert_eq!(socio.dni, 44581840);
}

#[test]
#[should_panic(expected = "No se encontro la categoria")]
fn crear_socio_invalido_test() {
    let pagos_realizados: Vec<u128> = Vec::new();
    let pagos_pendientes: Vec<u128> = Vec::new();
    let socio: Socio =
        crear_socio(44581840, "D", "TODOS", 0045675675, pagos_realizados, pagos_pendientes, 10);
    assert_eq!(socio.dni, 44581840);
}

#[test]
fn elegir_actividad_futbol_test() {
    let pagos_realizados: Vec<u128> = Vec::new();
    let pagos_pendientes: Vec<u128> = Vec::new();
    let _socio: Socio =
        crear_socio(44581840, "A", "TODOS", 0045675675, pagos_realizados, pagos_pendientes, 10);

    let act = elegir_actividad("FUTBOL");
    if let Some(a) = act {
        assert_eq!(a, Actividad::FUTBOL);
    }
}

#[test]
fn elegir_actividad_basquet_test() {
    let pagos_realizados: Vec<u128> = Vec::new();
    let pagos_pendientes: Vec<u128> = Vec::new();
    let _socio: Socio =
        crear_socio(44581840, "A", "TODOS", 0045675675, pagos_realizados, pagos_pendientes, 10);
    let act = elegir_actividad("BASQUET");
    if let Some(a) = act {
        assert_eq!(a, Actividad::BASQUET);
    }
}

#[test]
fn elegir_actividad_rugby_test() {
    let act = elegir_actividad("RUGBY");
    if let Some(a) = act {
        assert_eq!(a, Actividad::RUGBY);
    }
}

#[test]
fn elegir_actividad_hockey_test() {
    let act = elegir_actividad("HOCKEY");
    if let Some(a) = act {
        assert_eq!(a, Actividad::HOCKEY);
    }
}

#[test]
fn elegir_actividad_natacion_test() {
    let act = elegir_actividad("NATACION");
    if let Some(a) = act {
        assert_eq!(a, Actividad::NATACION);
    }
}

#[test]
fn elegir_actividad_tenis_test() {
    let act = elegir_actividad("TENIS");
    if let Some(a) = act {
        assert_eq!(a, Actividad::TENIS);
    }
}

#[test]
fn elegir_actividad_paddle_test() {
    let act = elegir_actividad("PADDLE");
    if let Some(a) = act {
        assert_eq!(a, Actividad::PADDLE);
    }
}

#[test]
#[should_panic(expected = "Actividad invalida")]
fn elegir_actividad_todos_test() {
    let act = elegir_actividad("TODOS");
    if let Some(a) = act {
        assert_eq!(a, Actividad::TODOS);
    }
}

#[test]
fn get_info_socio_test() {
    let mut club = nuevo_club();
    registrar_socio(&mut club, 44581840, "B", "NATACION");
    registrar_socio(&mut club, 44851840, "A", "TODOS");
    let t = get_info_socio(&club, 1);
    let a = t.0;
    let b = t.1;
    assert_eq!(a, "A", "Error con categoria");
    assert_eq!(b, "TODOS", "Error con actividad");
}

#[test]
fn get_info_socio_2_test() {
    let mut club = nuevo_club();
    registrar_socio(&mut club, 44581840, "A", "TODOS");
    registrar_socio(&mut club, 44851840, "B", "NATACION");
    let t = get_info_socio(&club, 1);
    let a = t.0;
    let b = t.1;
    assert_eq!(a, "B", "Error con categoria");
    assert_eq!(b, "NATACION", "Error con actividad");
}

#[test]
fn get_info_socio_3_test() {
    let mut club = nuevo_club();
    registrar_socio(&mut club, 44581840, "C", "TODOS");
    registrar_socio(&mut club, 44851840, "B", "FUTBOL");
    let t = get_info_socio(&club, 1);
    let a = t.0;
    let b = t.1;
    assert_eq!(a, "B", "Error con categoria");
    assert_eq!(b, "FUTBOL", "Error con actividad");
}

#[test]
fn get_info_socio_4_test() {
    let mut club = nuevo_club();
    registrar_socio(&mut club, 44581840, "C", "TODOS");
    registrar_socio(&mut club, 44851840, "C", "FUTBOL");
    let t = get_info_socio(&club, 1);
    let a = t.0;
    let b = t.1;
    assert_eq!(a, "C", "Error con categoria");
    assert_eq!(b, "NADA", "Error con actividad");
}

#[test]
#[should_panic(expected = "No se encontro la categoria")]
fn get_info_socio_5_test() {
    let mut club = nuevo_club();
    registrar_socio(&mut club, 44581840, "C", "TODOS");
    registrar_socio(&mut club, 44851840, "D", "FUTBOL");
    let t = get_info_socio(&club, 1);
    let a = t.0;
    let b = t.1;
    assert_eq!(a, "D", "Error con categoria");
    assert_eq!(b, "NADA", "Error con actividad");
}

#[test]
fn get_info_socio_6_test() {
    let mut club = nuevo_club();
    registrar_socio(&mut club, 44581840, "C", "TODOS");
    registrar_socio(&mut club, 44851840, "B", "BASQUET");
    let t = get_info_socio(&club, 1);
    let a = t.0;
    let b = t.1;
    assert_eq!(a, "B", "Error con categoria");
    assert_eq!(b, "BASQUET", "Error con actividad");
}

#[test]
fn get_info_socio_7_test() {
    let mut club = nuevo_club();
    registrar_socio(&mut club, 44581840, "C", "TODOS");
    registrar_socio(&mut club, 44851840, "B", "RUGBY");
    let t = get_info_socio(&club, 1);
    let a = t.0;
    let b = t.1;
    assert_eq!(a, "B", "Error con categoria");
    assert_eq!(b, "RUGBY", "Error con actividad");
}

#[test]
fn get_info_socio_8_test() {
    let mut club = nuevo_club();
    registrar_socio(&mut club, 44581840, "C", "TODOS");
    registrar_socio(&mut club, 44851840, "B", "HOCKEY");
    let t = get_info_socio(&club, 1);
    let a = t.0;
    let b = t.1;
    assert_eq!(a, "B", "Error con categoria");
    assert_eq!(b, "HOCKEY", "Error con actividad");
}

#[test]
fn get_info_socio_9_test() {
    let mut club = nuevo_club();
    registrar_socio(&mut club, 44581840, "C", "TODOS");
    registrar_socio(&mut club, 44851840, "B", "TENIS");
    let t = get_info_socio(&club, 1);
    let a = t.0;
    let b = t.1;
    assert_eq!(a, "B", "Error con categoria");
    assert_eq!(b, "TENIS", "Error con actividad");
}

#[test]
fn get_info_socio_10_test() {
    let mut club = nuevo_club();
    registrar_socio(&mut club, 44581840, "C", "TODOS");
    registrar_socio(&mut club, 44851840, "B", "PADDLE");
    let t = get_info_socio(&club, 1);
    let a = t.0;
    let b = t.1;
    assert_eq!(a, "B", "Error con categoria");
    assert_eq!(b, "PADDLE", "Error con actividad");
}

#[test]
#[should_panic(expected = "Actividad invalida")]
fn get_info_socio_nada_test() {
    let mut club = nuevo_club();
    registrar_socio(&mut club, 44581840, "B", "NATACION");
    registrar_socio(&mut club, 44851840, "B", "CORRER");
    let t = get_info_socio(&club, 1);
    let a = t.0;
    assert_eq!(a, "B", "Error con categoria");
}

#[test]
fn get_socios_test() {
    let c = club_con_tres_socios();
    let v = c.get_socios(alice());
    assert_eq!(v.len(), c.socios.len(), "Esta mal");
}

#[test]
fn get_pago_test() {
    let mut c = club_con_tres_socios();
    registro_pago(&mut c, 178, 3000);
    registro_pago(&mut c, 543, 2000);
    registro_pago(&mut c, 234, 5000);
    let t = get_pago(&c, 178);
    assert_eq!(t.len(), 1);
}

#[test]
#[should_panic(expected = "No existe el socio")]
fn get_pago_invalido_test() {
    let mut c = club_con_tres_socios();
    registro_pago(&mut c, 178, 3000);
    registro_pago(&mut c, 543, 2000);
    registro_pago(&mut c, 234, 5000);
    let t = get_pago(&c, 44851840);
    assert_eq!(t.len(), 1);
}

#[test]
fn no_existe_socio_test() {
    let club = nuevo_club();
    let ok = club.existe_socio(44581840);
    assert!(!ok);
}

#[test]
fn existe_socio_test() {
    let mut club = nuevo_club();
    let clave: AccountId = [0x42; 32].into();
    agregar_direccion(&mut club, clave);
    registrar_socio(&mut club, 44581840, "A", "FUTBOL");
    let ok = club.existe_socio(44581840);
    assert!(ok);
}

#[test]
fn set_categoria_a_test() {
    let mut c = nuevo_club();
    let clave1 = [1; 32].into();
    agregar_direccion(&mut c, clave1);
    assert_eq!(c.set_categoria_a(alice(), 7000), Ok(()));
    assert_eq!(c.get_categoria_a(alice()).ok(), Some(7000));
}

#[test]
fn set_categoria_b_test() {
    let mut c = nuevo_club();
    let clave1 = [1; 32].into();
    agregar_direccion(&mut c, clave1);
    assert_eq!(c.set_categoria_b(alice(), 5000), Ok(()));
    assert_eq!(c.get_categoria_b(alice()).ok(), Some(5000));
}

#[test]
fn set_categoria_c_test() {
    let mut c = nuevo_club();
    let clave1 = [1; 32].into();
    agregar_direccion(&mut c, clave1);
    assert_eq!(c.set_categoria_c(alice(), 3000), Ok(()));
    assert_eq!(c.get_categoria_c(alice()).ok(), Some(3000));
}

#[test]
fn set_cantidad_meses_test() {
    let mut club = nuevo_club();
    let cant = club.cantidad_meses;
    assert_eq!(club.set_cantidad_meses(alice(), 20), Ok(()));
    assert_ne!(club.cantidad_meses, cant);
}

#[test]
fn set_descuento_test() {
    let mut club = nuevo_club();
    let cant = club.descuento;
    assert_eq!(club.set_descuento(alice(), 20), Ok(()));
    assert_ne!(club.descuento, cant);
}

#[test]
fn descuento_otorgado_test() {
    let club = nuevo_club();
    let monto = club.descuento_otorgado(100);
    if let Some(l) = monto {
        assert_eq!(l, 30, "Dio error el descuento");
    }
}

#[test]
fn agregar_direccion_nueva_test() {
    let mut club = nuevo_club();
    let account_id: AccountId = [0x42; 32].into();
    let resultado = agregar_direccion(&mut club, account_id);
    assert_eq!(resultado, true);
}

#[test]
#[should_panic(expected = "La direccion ya esta en el vector")]
fn agregar_direccion_repetida_test() {
    let mut club = nuevo_club();
    let account_id: AccountId = [0x42; 32].into();
    agregar_direccion(&mut club, account_id);
    assert!(agregar_direccion(&mut club, account_id), "La clave ya esta guardada");
}

#[test]
fn eliminar_direccion_test() {
    let mut club = nuevo_club();
    let account_id1: AccountId = [0x42; 32].into();
    agregar_direccion(&mut club, account_id1);
    let account_id2: AccountId = [0; 32].into();
    agregar_direccion(&mut club, account_id2);
    eliminar_direccion(&mut club, account_id1);
}

#[test]
fn eliminar_direccion_dos_test() {
    let mut club = nuevo_club();
    let account_id1: AccountId = [0x42; 32].into();
    agregar_direccion(&mut club, account_id1);
    let account_id2: AccountId = [0; 32].into();
    agregar_direccion(&mut club, account_id2);
    let account_id3: AccountId = [1; 32].into();
    agregar_direccion(&mut club, account_id3);
    let account_id4: AccountId = [2; 32].into();
    agregar_direccion(&mut club, account_id4);
    eliminar_direccion(&mut club, account_id3);
}

#[test]
#[should_panic(expected = "No esta guardada esta clave,por lo q no se puede eliminar")]
fn eliminar_direccion_invalida_test() {
    let mut club = nuevo_club();
    let account_id1: AccountId = [0x42; 32].into();
    eliminar_direccion(&mut club, account_id1);
}

#[test]
fn esta_permitido_test() {
    let mut club = nuevo_club();
    let account_id: AccountId = [0x42; 32].into();
    agregar_direccion(&mut club, account_id);
    let okey = club.esta_permitido(alice());
    assert!(okey, "No esta permitida la clave");
}

#[test]
fn es_owner_test() {
    let mut club = nuevo_club();
    assert!(club.es_owner(alice()));
    let clave: AccountId = [0x42; 32].into();
    club.set_owner(alice(), clave);
    assert_eq!(club.es_owner(alice()), false);
}

#[test]
fn cambiar_politica_test() {
    let mut club = nuevo_club();
    assert!(club.politica);
    club.cambiar_politica(alice());
    assert_eq!(club.politica, false);
}

#[test]
fn aceptar_modificaciones_test() {
    let mut club = nuevo_club();
    assert!(club.aceptar_modificaciones(alice()));
    let clave: AccountId = [0x42; 32].into();
    club.set_owner(alice(), clave);
    assert_eq!(club.es_owner(alice()), false);
}

#[test]
fn set_owner_test() {
    let mut club = nuevo_club();
    let clave: AccountId = [0x42; 32].into();
    club.set_owner(alice(), clave);
    if let Some(owner) = club.owner {
        assert_eq!(owner, clave);
    }
}

#[test]
fn guardar_firma_test() {
    let mut club = nuevo_club();
    club.guardar_firma(alice());
    assert_ne!(club.owner, None);
}

#[test]
fn crear_pago_pendiente_test() {
    let mut club = nuevo_club();
    club.crear_pago_pendiente(44666785, 5000, 334545654);
    assert_eq!(club.pagos.len(), 1);
}

#[test]
fn calcular_precio_a_test() {
    let c = nuevo_club();
    let precio = calcular_precio(&c, &TipoCategoria::A);
    assert_eq!(precio, 5000);
}

#[test]
fn calcular_precio_b_test() {
    let c = nuevo_club();
    let precio = calcular_precio(&c, &TipoCategoria::B);
    assert_eq!(precio, 3000);
}

#[test]
fn calcular_precio_c_test() {
    let c = nuevo_club();
    let precio = calcular_precio(&c, &TipoCategoria::C);
    assert_eq!(precio, 2000);
}

#[test]
fn buscar_socio_test() {
    let mut club = nuevo_club();
    let clave: AccountId = [0x42; 32].into();
    agregar_direccion(&mut club, clave);
    registrar_socio(&mut club, 44581840, "B", "NATACION");
    let o = club.buscar_socio(44581840);
    let mut ok = false;
    if let Some(_s) = o {
        ok = true;
    };
    assert_eq!(ok, true, "no se encontro el socio");
}

#[test]
fn buscar_socio_invalido_test() {
    let mut club = nuevo_club();
    let clave: AccountId = [0x42; 32].into();
    agregar_direccion(&mut club, clave);
    registrar_socio(&mut club, 44581840, "B", "NATACION");
    let o = club.buscar_socio(44851240);
    let mut ok = false;
    if let Some(_s) = o {
        ok = true;
    };
    assert_eq!(ok, false, "no se encontro el socio");
}

#[test]
fn primero_pagos_pendientes_test() {
    let mut club = nuevo_club();
    registrar_socio(&mut club, 44851840, "B", "NATACION");
    registrar_socio(&mut club, 22884342, "C", "TENIS");
    let a = club.primero_pagos_pendientes(0 as usize);
    let mut ok = false;
    if let Some(_c) = a {
        ok = true;
    }
    assert!(ok);
}

#[test]
fn registrar_socio_nuevo_test() {
    let mut club = nuevo_club();
    let clave: AccountId = [0x42; 32].into();
    agregar_direccion(&mut club, clave);
    registrar_socio(&mut club, 44581840, "B", "NATACION");
    let num = club.socios.len();
    assert_eq!(num, 1);
}

#[test]
#[should_panic(expected = "La direccion ya esta en el vector")]
fn registrar_socio_invalido_test() {
    let mut club = nuevo_club();
    let clave: AccountId = [0x42; 32].into();
    agregar_direccion(&mut club, clave);
    registrar_socio(&mut club, 44581840, "B", "NATACION");

    let clave2: AccountId = [0x42; 32].into();
    agregar_direccion(&mut club, clave2);
    registrar_socio(&mut club, 11222333, "B", "BASQUET");

    registrar_socio(&mut club, 44581840, "B", "NATACION");

    let num = club.socios.len();
    assert_eq!(num, 2);
}

#[test]
fn registro_pago_test() {
    let mut c = club_con_tres_socios();
    registro_pago(&mut c, 178, 3000);
    registro_pago(&mut c, 543, 2000);
    registro_pago(&mut c, 234, 5000);
}

#[test]
#[should_panic(expected = "No paga lo q corresponde para su categoria")]
fn registro_pago_monto_invalido_test() {
    let mut c = club_con_tres_socios();
    registro_pago(&mut c, 178, 3000);
    registro_pago(&mut c, 543, 3000);
}

#[test]
#[should_panic(expected = "El socio no existe")]
fn registro_pago_socio_invalido() {
    let mut c = club_con_tres_socios();
    registro_pago(&mut c, 44851840, 3000);
}

#[test]
#[should_panic(expected = "No tiene pagos pendientes el socio")]
fn registro_pago_sin_pendientes() {
    let mut c = club_con_tres_socios();
    registro_pago(&mut c, 543, 2000);
    registro_pago(&mut c, 543, 2000);
    registro_pago(&mut c, 543, 2000);
}

#[test]
fn consultar_pagos_test() {
    let c = club_con_tres_socios();
    let dni = Some(543);
    let ad = consultar_pagos(&c, dni);
    assert_eq!(ad.dni, dni);
    assert_eq!(ad.cate, Some(TipoCategoria::C));
}

#[test]
fn consultar_pago_sin_dni() {
    let mut c = nuevo_club();
    let clave1 = [1; 32].into();
    agregar_direccion(&mut c, clave1);
    registrar_socio(&mut c, 234, "A", "todos");
    let dni = None;
    let ad = consultar_pagos(&c, dni);
    assert_eq!(ad.dni, dni);
    assert_eq!(ad.cate, None);
}

#[test]
#[should_panic(expected = "No se encontro el socio")]
fn consultar_pago_invalido() {
    let mut c = nuevo_club();
    let clave1 = [1; 32].into();
    agregar_direccion(&mut c, clave1);
    registrar_socio(&mut c, 234, "A", "todos");
    let dni = Some(44851840);
    let ad = consultar_pagos(&c, dni);
    assert_eq!(ad.dni, dni);
    assert_eq!(ad.cate, Some(TipoCategoria::C));
}

// ----- further scenarios -----

#[test]
fn club_nuevo_tiene_los_valores_iniciales() {
    let c = nuevo_club();
    assert!(c.socios.is_empty());
    assert!(c.pagos.is_empty());
    assert!(c.direcciones.is_empty());
    assert_eq!(c.owner, Some(alice()));
    assert!(c.politica);
    assert_eq!(c.descuento, 30);
    assert_eq!(c.cantidad_meses, 3);
    assert_eq!(
        c.precio_categoria,
        TablaPrecios { a: Some(5000), b: Some(3000), c: Some(2000) }
    );
}
