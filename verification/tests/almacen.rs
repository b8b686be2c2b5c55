use redis_nucleo::base_de_datos::BaseDeDatos;
use redis_nucleo::canal::{Canal, Cliente, Envio};
use redis_nucleo::comando::TipoRedis;
use redis_nucleo::conjunto::Conjunto;
use redis_nucleo::tabla::Tabla;
use redis_nucleo::valor::{Plazo, Valor};

fn texto(t: Option<TipoRedis>) -> Option<String> {
    match t {
        Some(TipoRedis::Str(s)) => Some(s),
        _ => None,
    }
}

#[test]
fn guardar_obtener_y_eliminar() {
    let mut bdd = BaseDeDatos::new("db.txt".to_string());
    assert_eq!(bdd.archivo(), "db.txt");
    assert!(!bdd.existe_clave("k"));
    assert!(bdd.obtener_valor("k").is_none());
    bdd.guardar_valor("k".to_string(), TipoRedis::Str("v".to_string()));
    assert!(bdd.existe_clave("k"));
    assert_eq!(texto(bdd.obtener_valor("k")), Some("v".to_string()));
    bdd.guardar_valor("k".to_string(), TipoRedis::Str("w".to_string()));
    assert_eq!(texto(bdd.obtener_valor("k")), Some("w".to_string()));
    assert!(bdd.eliminar_clave("k"));
    assert!(!bdd.eliminar_clave("k"));
    assert!(!bdd.existe_clave("k"));
}

#[test]
fn una_clave_con_plazo_se_ve_mientras_no_pasen_sus_segundos() {
    let mut bdd = BaseDeDatos::new("db.txt".to_string());
    bdd.fijar_reloj(10_000);
    bdd.guardar_valor_expirable("k".to_string(), TipoRedis::Str("v".to_string()), 3);
    assert!(bdd.existe_clave("k"));
    bdd.fijar_reloj(12_999);
    assert!(bdd.existe_clave("k"));
    assert_eq!(texto(bdd.obtener_valor("k")), Some("v".to_string()));
    bdd.fijar_reloj(13_000);
    assert!(!bdd.existe_clave("k"));
    assert!(bdd.obtener_valor("k").is_none());
    bdd.fijar_reloj(10_000);
    assert!(!bdd.existe_clave("k"));
}

#[test]
fn un_plazo_de_cero_segundos_ya_expiro() {
    let mut bdd = BaseDeDatos::new("db.txt".to_string());
    bdd.guardar_valor_expirable("k".to_string(), TipoRedis::Str("v".to_string()), 0);
    assert!(!bdd.existe_clave("k"));
    assert!(!bdd.eliminar_clave("k"));
    assert_eq!(bdd.instantanea().len(), 0);
}

#[test]
fn un_plazo_enorme_no_desborda() {
    let mut bdd = BaseDeDatos::new("db.txt".to_string());
    bdd.fijar_reloj(u64::MAX - 5);
    bdd.guardar_valor_expirable("k".to_string(), TipoRedis::Str("v".to_string()), u64::MAX);
    bdd.fijar_reloj(u64::MAX);
    assert!(bdd.existe_clave("k"));
}

#[test]
fn guardar_sin_plazo_quita_el_plazo() {
    let mut bdd = BaseDeDatos::new("db.txt".to_string());
    bdd.guardar_valor_expirable("k".to_string(), TipoRedis::Str("v".to_string()), 1);
    bdd.guardar_valor("k".to_string(), TipoRedis::Str("w".to_string()));
    bdd.fijar_reloj(60_000);
    assert_eq!(texto(bdd.obtener_valor("k")), Some("w".to_string()));
}

#[test]
fn cada_cambio_deja_una_instantanea_para_los_observadores() {
    let mut bdd = BaseDeDatos::new("db.txt".to_string());
    bdd.guardar_valor("a".to_string(), TipoRedis::Str("1".to_string()));
    bdd.guardar_valor("b".to_string(), TipoRedis::Str("2".to_string()));
    bdd.obtener_valor("a");
    bdd.existe_clave("a");
    bdd.eliminar_clave("a");
    bdd.eliminar_clave("a");
    let notificaciones = bdd.tomar_notificaciones();
    let claves: Vec<Vec<String>> = notificaciones
        .iter()
        .map(|t| (0..t.len()).map(|i| t.entrada(i).clave().clone()).collect())
        .collect();
    assert_eq!(
        claves,
        vec![
            vec!["a".to_string()],
            vec!["a".to_string(), "b".to_string()],
            vec!["b".to_string()],
        ]
    );
    assert_eq!(bdd.tomar_notificaciones().len(), 0);
}

#[test]
fn leer_una_clave_expirada_la_desaloja_y_avisa() {
    let mut bdd = BaseDeDatos::new("db.txt".to_string());
    bdd.guardar_valor_expirable("k".to_string(), TipoRedis::Str("v".to_string()), 1);
    bdd.tomar_notificaciones();
    bdd.fijar_reloj(1_000);
    assert_eq!(bdd.instantanea().len(), 1);
    assert!(bdd.obtener_valor("k").is_none());
    assert_eq!(bdd.instantanea().len(), 0);
    assert_eq!(bdd.tomar_notificaciones().len(), 1);
    assert!(bdd.obtener_valor("k").is_none());
    assert_eq!(bdd.tomar_notificaciones().len(), 0);
}

#[test]
fn canales_activos_filtra_por_patron_suscriptores_y_tipo() {
    let mut bdd = BaseDeDatos::new("db.txt".to_string());
    let mut uno = Canal::new();
    uno.suscribirse(Cliente::new(1));
    let mut dos = Canal::new();
    dos.suscribirse(Cliente::new(1));
    dos.suscribirse(Cliente::new(2));
    bdd.guardar_valor("news.uno".to_string(), TipoRedis::Canal(uno));
    bdd.guardar_valor("texto".to_string(), TipoRedis::Str("v".to_string()));
    bdd.guardar_valor("vacio".to_string(), TipoRedis::Canal(Canal::new()));
    bdd.guardar_valor("news.dos".to_string(), TipoRedis::Canal(dos));
    assert_eq!(bdd.canales_activos("*"), vec!["news.uno", "news.dos"]);
    assert_eq!(bdd.canales_activos("news.*"), vec!["news.uno", "news.dos"]);
    assert_eq!(bdd.canales_activos("*.dos"), vec!["news.dos"]);
    assert_eq!(bdd.canales_activos("news.[u]no"), vec!["news.uno"]);
    assert_eq!(bdd.canales_activos("news.???"), vec!["news.uno", "news.dos"]);
    assert!(bdd.canales_activos("texto").is_empty());
    assert!(bdd.canales_activos("vacio").is_empty());
}

#[test]
fn un_canal_expirado_no_esta_activo() {
    let mut bdd = BaseDeDatos::new("db.txt".to_string());
    let mut canal = Canal::new();
    canal.suscribirse(Cliente::new(1));
    bdd.guardar_valor_expirable("c".to_string(), TipoRedis::Canal(canal), 2);
    assert_eq!(bdd.canales_activos("*"), vec!["c"]);
    bdd.fijar_reloj(2_000);
    assert!(bdd.canales_activos("*").is_empty());
}

#[test]
fn los_envios_esperan_en_orden_hasta_que_se_los_llevan() {
    let mut bdd = BaseDeDatos::new("db.txt".to_string());
    let mut canal = Canal::new();
    canal.suscribirse(Cliente::new(5));
    canal.suscribirse(Cliente::new(4));
    bdd.encolar_envios(canal.publicar("uno"));
    bdd.encolar_envios(canal.publicar("dos"));
    let envios = bdd.tomar_envios();
    let esperado: Vec<Envio> = [(5, "uno"), (4, "uno"), (5, "dos"), (4, "dos")]
        .iter()
        .map(|(d, m)| Envio { destino: *d, mensaje: m.to_string() })
        .collect();
    assert_eq!(envios, esperado);
    assert!(bdd.tomar_envios().is_empty());
}

#[test]
fn suscribirse_dos_veces_cuenta_una() {
    let mut canal = Canal::new();
    assert_eq!(canal.len(), 0);
    canal.suscribirse(Cliente::new(1));
    canal.suscribirse(Cliente::new(2));
    canal.suscribirse(Cliente::new(1));
    assert_eq!(canal.len(), 2);
    assert!(canal.esta_suscripto(Cliente::new(1)));
    assert!(!canal.esta_suscripto(Cliente::new(3)));
    assert_eq!(Cliente::new(1), Cliente::new(1));
    assert_eq!(Cliente::new(9).obtener_token(), 9);
}

#[test]
fn desuscribirse_quita_una_vez() {
    let mut canal = Canal::new();
    canal.suscribirse(Cliente::new(1));
    canal.suscribirse(Cliente::new(2));
    canal.suscribirse(Cliente::new(3));
    canal.desuscribirse(Cliente::new(2));
    assert_eq!(canal.len(), 2);
    assert!(!canal.esta_suscripto(Cliente::new(2)));
    canal.desuscribirse(Cliente::new(2));
    assert_eq!(canal.len(), 2);
    let destinos: Vec<u64> = canal.publicar("m").iter().map(|e| e.destino).collect();
    assert_eq!(destinos, vec![1, 3]);
    let copia = canal.clonar();
    assert_eq!(copia.len(), 2);
    assert!(Canal::new().publicar("m").is_empty());
}

#[test]
fn un_conjunto_no_repite_y_guarda_el_orden_de_llegada() {
    let mut c = Conjunto::new();
    assert!(c.insertar("b".to_string()));
    assert!(c.insertar("a".to_string()));
    assert!(!c.insertar("b".to_string()));
    assert_eq!(c.len(), 2);
    assert!(c.contiene("a"));
    assert!(!c.contiene("c"));
    assert_eq!(c.elementos(), &vec!["b".to_string(), "a".to_string()]);
    let d = Conjunto::desde_vec(&vec![
        "x".to_string(),
        "y".to_string(),
        "x".to_string(),
        "z".to_string(),
        "y".to_string(),
    ]);
    assert_eq!(d.elementos(), &vec!["x".to_string(), "y".to_string(), "z".to_string()]);
    assert_eq!(d.clonar().elementos(), d.elementos());
    let mut e = Conjunto::new();
    e.insertar("z".to_string());
    e.insertar("x".to_string());
    assert!(d != e);
    e.insertar("y".to_string());
    assert!(d == e);
    assert!(c != e);
    assert_eq!(
        TipoRedis::Conjunto(d),
        TipoRedis::Conjunto(e)
    );
    assert_eq!(
        TipoRedis::Lista(vec!["a".to_string()]),
        TipoRedis::Lista(vec!["a".to_string()])
    );
    assert_ne!(
        TipoRedis::Lista(vec!["a".to_string()]),
        TipoRedis::Str("a".to_string())
    );
}

#[test]
fn la_tabla_guarda_el_orden_de_insercion_y_reemplaza_en_su_lugar() {
    let mut t = Tabla::new();
    t.insertar("a".to_string(), Valor::no_expirable(TipoRedis::Str("1".to_string())));
    t.insertar("b".to_string(), Valor::no_expirable(TipoRedis::Str("2".to_string())));
    t.insertar("a".to_string(), Valor::expirable_desde(TipoRedis::Str("3".to_string()), 9, 77));
    assert_eq!(t.len(), 2);
    assert_eq!(t.entrada(0).clave(), "a");
    assert_eq!(t.entrada(1).clave(), "b");
    assert_eq!(
        t.obtener("a").unwrap().plazo(),
        Some(Plazo { desde: 77, segundos: 9 })
    );
    assert!(matches!(t.obtener("a").unwrap().contenido(), TipoRedis::Str(s) if s == "3"));
    assert!(t.obtener("c").is_none());
    assert!(t.eliminar("a"));
    assert!(!t.eliminar("a"));
    assert_eq!(t.len(), 1);
    assert_eq!(t.clonar().entrada(0).clave(), "b");
}

#[test]
fn el_valor_con_plazo_dice_cuanto_le_queda() {
    let v = Valor::expirable_desde(TipoRedis::Str("x".to_string()), 10, 1_000);
    assert_eq!(v.get_tiempo_en(1_000), Some(10));
    assert_eq!(v.get_tiempo_en(1_999), Some(10));
    assert_eq!(v.get_tiempo_en(2_000), Some(9));
    assert_eq!(v.get_tiempo_en(10_999), Some(1));
    assert_eq!(v.get_tiempo_en(11_000), Some(0));
    assert_eq!(v.get_tiempo_en(500), Some(10));
    assert!(v.get_en(10_999).is_some());
    assert!(v.get_en(11_000).is_none());
    assert!(!v.expiro_en(10_999));
    assert!(v.expiro_en(11_000));
    let fijo = Valor::no_expirable(TipoRedis::Str("x".to_string()));
    assert_eq!(fijo.get_tiempo_en(u64::MAX), None);
    assert_eq!(fijo.get_tiempo(), None);
    assert!(fijo.get().is_some());
    assert!(!fijo.expiro_en(u64::MAX));
    assert_eq!(fijo.clonar().plazo(), None);
}

#[test]
fn el_valor_creado_ahora_vive_sus_segundos_desde_ahora() {
    let v = Valor::expirable(TipoRedis::Str("x".to_string()), 3000);
    assert_eq!(v.plazo().unwrap().segundos, 3000);
    assert!(v.plazo().unwrap().desde > 0);
    assert!(v.get().is_some());
    assert_eq!(v.get_tiempo(), Some(3000));
    let muerto = Valor::expirable(TipoRedis::Str("x".to_string()), 0);
    assert!(muerto.get().is_none());
    assert_eq!(muerto.get_tiempo(), Some(0));
}
