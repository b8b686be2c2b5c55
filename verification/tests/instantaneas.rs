use redis_nucleo::canal::{Canal, Cliente};
use redis_nucleo::comando::TipoRedis;
use redis_nucleo::conjunto::Conjunto;
use redis_nucleo::persistencia::{
    cargar_linea, es_expirable, guardar_clave_valor, levantar_tabla, lineas_de,
    obtener_tiempo_expiracion, AccionPersistencia, MensajePersistencia, Persistidor,
    PersistidorHandler,
};
use redis_nucleo::tabla::Tabla;
use redis_nucleo::valor::{Plazo, Valor};
use std::sync::mpsc::channel;

fn textos(v: &[&str]) -> Vec<String> {
    v.iter().map(|s| s.to_string()).collect()
}

#[test]
fn la_linea_de_cada_tipo() {
    let texto = TipoRedis::Str("v".to_string());
    let lista = TipoRedis::Lista(textos(&["a", "b"]));
    let set = TipoRedis::Conjunto(Conjunto::desde_vec(&textos(&["x", "y", "x"])));
    let canal = TipoRedis::Canal(Canal::new());
    assert_eq!(guardar_clave_valor("k".to_string(), Some(&texto), None), "STRING:k:v");
    assert_eq!(
        guardar_clave_valor("k".to_string(), Some(&texto), Some(30)),
        "STRING:k:v:EX:30"
    );
    assert_eq!(guardar_clave_valor("k".to_string(), Some(&lista), None), "LIST:k:a:b");
    assert_eq!(
        guardar_clave_valor("k".to_string(), Some(&lista), Some(0)),
        "LIST:k:a:b:EX:0"
    );
    assert_eq!(guardar_clave_valor("k".to_string(), Some(&set), None), "SET:k:x:y");
    assert_eq!(
        guardar_clave_valor("k".to_string(), Some(&set), Some(7)),
        "SET:k:x:y:EX:7"
    );
    assert_eq!(guardar_clave_valor("k".to_string(), Some(&canal), None), "");
    assert_eq!(guardar_clave_valor("k".to_string(), None, Some(7)), "");
    let vacia = TipoRedis::Lista(Vec::new());
    assert_eq!(guardar_clave_valor("k".to_string(), Some(&vacia), None), "LIST:k");
    let sin_texto = TipoRedis::Str(String::new());
    assert_eq!(guardar_clave_valor(String::new(), Some(&sin_texto), None), "STRING::");
}

#[test]
fn el_par_final_dice_el_plazo() {
    assert!(es_expirable(&textos(&["v", "EX", "30"])));
    assert!(es_expirable(&textos(&["EX", "30"])));
    assert!(es_expirable(&textos(&["v", "EX", "x"])));
    assert!(!es_expirable(&textos(&["v", "EX"])));
    assert!(!es_expirable(&textos(&["EX", "30", "v"])));
    assert!(!es_expirable(&textos(&["v", "ex", "30"])));
    assert!(!es_expirable(&textos(&[])));
    assert_eq!(obtener_tiempo_expiracion(&textos(&["v", "EX", "30"]), "EX"), Some(30));
    assert_eq!(obtener_tiempo_expiracion(&textos(&["v", "EX", "x"]), "EX"), None);
    assert_eq!(obtener_tiempo_expiracion(&textos(&["v", "EX", "-1"]), "EX"), None);
    assert_eq!(obtener_tiempo_expiracion(&textos(&["v", "PX", "30"]), "EX"), None);
    assert_eq!(obtener_tiempo_expiracion(&textos(&["v", "PX", "30"]), "PX"), Some(30));
    assert_eq!(obtener_tiempo_expiracion(&textos(&["30"]), "EX"), None);
}

#[test]
fn leer_una_linea_de_cada_tipo() {
    let e = cargar_linea("STRING:k:v", 100).unwrap();
    assert_eq!(e.clave(), "k");
    assert!(matches!(e.valor().contenido(), TipoRedis::Str(s) if s == "v"));
    assert_eq!(e.valor().plazo(), None);

    let e = cargar_linea("STRING:k:v:EX:30", 100).unwrap();
    assert!(matches!(e.valor().contenido(), TipoRedis::Str(s) if s == "v"));
    assert_eq!(e.valor().plazo(), Some(Plazo { desde: 100, segundos: 30 }));

    let e = cargar_linea("LIST:l:a:b:a", 100).unwrap();
    assert_eq!(e.clave(), "l");
    assert!(matches!(e.valor().contenido(), TipoRedis::Lista(l) if *l == textos(&["a", "b", "a"])));

    let e = cargar_linea("LIST:l:a:b:EX:4500", 100).unwrap();
    assert!(matches!(e.valor().contenido(), TipoRedis::Lista(l) if *l == textos(&["a", "b"])));
    assert_eq!(e.valor().plazo(), Some(Plazo { desde: 100, segundos: 4500 }));

    let e = cargar_linea("SET:s:a:b:a", 100).unwrap();
    assert!(matches!(
        e.valor().contenido(),
        TipoRedis::Conjunto(c) if *c.elementos() == textos(&["a", "b"])
    ));

    let e = cargar_linea("LIST:l", 100).unwrap();
    assert!(matches!(e.valor().contenido(), TipoRedis::Lista(l) if l.is_empty()));

    let e = cargar_linea("STRING:k:v:EX:pronto", 100).unwrap();
    assert_eq!(e.valor().plazo(), Some(Plazo { desde: 100, segundos: 0 }));
}

#[test]
fn lineas_que_no_dicen_nada() {
    assert!(cargar_linea("", 0).is_none());
    assert!(cargar_linea("STRING", 0).is_none());
    assert!(cargar_linea("STRING:k", 0).is_none());
    assert!(cargar_linea("LIST", 0).is_none());
    assert!(cargar_linea("HASH:k:v", 0).is_none());
    assert!(cargar_linea("string:k:v", 0).is_none());
    assert!(cargar_linea("k:STRING:v", 0).is_none());
}

#[test]
fn levantar_la_tabla_de_sus_lineas() {
    let lineas = textos(&[
        "STRING:a:1",
        "",
        "LIST:b:x:y",
        "basura",
        "STRING:a:2:EX:5",
        "SET:c:p:q",
    ]);
    let tabla = levantar_tabla(&lineas, 1_000);
    assert_eq!(tabla.len(), 3);
    assert_eq!(tabla.entrada(0).clave(), "a");
    assert_eq!(tabla.entrada(1).clave(), "b");
    assert_eq!(tabla.entrada(2).clave(), "c");
    assert!(matches!(tabla.obtener("a").unwrap().contenido(), TipoRedis::Str(s) if s == "2"));
    assert_eq!(
        tabla.obtener("a").unwrap().plazo(),
        Some(Plazo { desde: 1_000, segundos: 5 })
    );
    assert_eq!(levantar_tabla(&Vec::new(), 0).len(), 0);
}

#[test]
fn lo_escrito_se_lee_como_estaba() {
    let mut canal = Canal::new();
    canal.suscribirse(Cliente::new(1));
    let mut tabla = Tabla::new();
    tabla.insertar("t".to_string(), Valor::no_expirable(TipoRedis::Str("v".to_string())));
    tabla.insertar(
        "l".to_string(),
        Valor::expirable_desde(TipoRedis::Lista(textos(&["a", "EX", "b"])), 100, 0),
    );
    tabla.insertar("c".to_string(), Valor::no_expirable(TipoRedis::Canal(canal)));
    tabla.insertar(
        "viejo".to_string(),
        Valor::expirable_desde(TipoRedis::Str("x".to_string()), 1, 0),
    );
    tabla.insertar(
        "s".to_string(),
        Valor::no_expirable(TipoRedis::Conjunto(Conjunto::desde_vec(&textos(&["p", "q"])))),
    );
    let lineas = lineas_de(&tabla, 40_500);
    assert_eq!(
        lineas,
        textos(&["STRING:t:v", "LIST:l:a:EX:b:EX:60", "", "", "SET:s:p:q"])
    );
    let leida = levantar_tabla(&lineas, 90_000);
    assert_eq!(leida.len(), 3);
    assert_eq!(leida.entrada(0).clave(), "t");
    assert_eq!(leida.entrada(1).clave(), "l");
    assert_eq!(leida.entrada(2).clave(), "s");
    assert_eq!(leida.obtener("t").unwrap().plazo(), None);
    assert!(matches!(
        leida.obtener("l").unwrap().contenido(),
        TipoRedis::Lista(l) if *l == textos(&["a", "EX", "b"])
    ));
    assert_eq!(
        leida.obtener("l").unwrap().plazo(),
        Some(Plazo { desde: 90_000, segundos: 60 })
    );
    assert_eq!(lineas_de(&leida, 90_000), textos(&["STRING:t:v", "LIST:l:a:EX:b:EX:60", "SET:s:p:q"]));
}

#[test]
fn lo_que_el_formato_no_puede_guardar() {
    let mut tabla = Tabla::new();
    tabla.insertar("k".to_string(), Valor::no_expirable(TipoRedis::Str("a:b".to_string())));
    tabla.insertar(
        "l".to_string(),
        Valor::no_expirable(TipoRedis::Lista(textos(&["x", "EX", "5"]))),
    );
    let leida = levantar_tabla(&lineas_de(&tabla, 0), 0);
    assert!(matches!(leida.obtener("k").unwrap().contenido(), TipoRedis::Str(s) if s == "a"));
    assert!(matches!(
        leida.obtener("l").unwrap().contenido(),
        TipoRedis::Lista(l) if *l == textos(&["x"])
    ));
    assert_eq!(leida.obtener("l").unwrap().plazo(), Some(Plazo { desde: 0, segundos: 5 }));
}

#[test]
fn el_actor_escribe_solo_si_paso_el_intervalo() {
    let mut tabla = Tabla::new();
    tabla.insertar("k".to_string(), Valor::no_expirable(TipoRedis::Str("v".to_string())));
    let mut actor = PersistidorHandler::new("uno.txt".to_string(), 2, 10_000);

    let accion = actor.persistir(MensajePersistencia::Info(tabla.clonar()), 11_999);
    assert!(matches!(accion, AccionPersistencia::Esperar));

    match actor.persistir(MensajePersistencia::Info(tabla.clonar()), 12_000) {
        AccionPersistencia::Escribir { archivo, lineas } => {
            assert_eq!(archivo, "uno.txt");
            assert_eq!(lineas, vec!["STRING:k:v".to_string()]);
        }
        _ => panic!("tenia que escribir"),
    }
    assert!(actor.escritura_terminada(true, 12_000));

    let accion = actor.persistir(MensajePersistencia::Info(tabla.clonar()), 13_000);
    assert!(matches!(accion, AccionPersistencia::Esperar));

    let accion = actor.persistir(
        MensajePersistencia::ArchivoAPersistir("dos.txt".to_string()),
        13_000,
    );
    assert!(matches!(accion, AccionPersistencia::Esperar));
    match actor.persistir(MensajePersistencia::Info(tabla.clonar()), 14_000) {
        AccionPersistencia::Escribir { archivo, .. } => assert_eq!(archivo, "dos.txt"),
        _ => panic!("tenia que escribir"),
    }
    assert!(!actor.escritura_terminada(false, 14_000));
    assert!(matches!(
        actor.persistir(MensajePersistencia::Cerrar, 14_000),
        AccionPersistencia::Terminar
    ));
}

#[test]
fn si_la_escritura_no_se_confirma_el_intervalo_no_vuelve_a_empezar() {
    let mut actor = PersistidorHandler::new("uno.txt".to_string(), 5, 0);
    let accion = actor.persistir(MensajePersistencia::Info(Tabla::new()), 5_000);
    assert!(matches!(accion, AccionPersistencia::Escribir { .. }));
    let accion = actor.persistir(MensajePersistencia::Info(Tabla::new()), 5_001);
    assert!(matches!(accion, AccionPersistencia::Escribir { .. }));
    actor.escritura_terminada(true, 5_001);
    let accion = actor.persistir(MensajePersistencia::Info(Tabla::new()), 10_000);
    assert!(matches!(accion, AccionPersistencia::Esperar));
    let accion = actor.persistir(MensajePersistencia::Info(Tabla::new()), 10_001);
    assert!(matches!(accion, AccionPersistencia::Escribir { .. }));
}

#[test]
fn el_persistidor_deja_sus_mensajes_en_el_buzon() {
    let (tx, rx) = channel();
    let persistidor = Persistidor::new(tx);
    let mut tabla = Tabla::new();
    tabla.insertar("k".to_string(), Valor::no_expirable(TipoRedis::Str("v".to_string())));
    assert!(persistidor.persistir(tabla.clonar()).is_ok());
    assert!(persistidor.cambiar_archivo("otro.txt".to_string()).is_ok());
    assert!(persistidor.clone().actualizar(tabla).is_ok());
    assert!(matches!(rx.recv().unwrap(), MensajePersistencia::Info(t) if t.len() == 1));
    assert!(matches!(
        rx.recv().unwrap(),
        MensajePersistencia::ArchivoAPersistir(a) if a == "otro.txt"
    ));
    assert!(matches!(rx.recv().unwrap(), MensajePersistencia::Info(t) if t.len() == 1));
    assert!(rx.try_recv().is_err());
}

#[test]
fn sin_actor_el_mensaje_vuelve_como_era() {
    let (tx, rx) = channel();
    let persistidor = Persistidor::new(tx);
    drop(rx);
    let mut tabla = Tabla::new();
    tabla.insertar("k".to_string(), Valor::no_expirable(TipoRedis::Str("v".to_string())));
    tabla.insertar("l".to_string(), Valor::no_expirable(TipoRedis::Str("w".to_string())));
    match persistidor.persistir(tabla.clonar()) {
        Err(MensajePersistencia::Info(t)) => {
            assert_eq!(t.len(), 2);
            assert_eq!(t.entrada(0).clave(), "k");
            assert_eq!(t.entrada(1).clave(), "l");
        }
        _ => panic!("no habia quien recibiera"),
    }
    assert!(matches!(
        persistidor.actualizar(tabla),
        Err(MensajePersistencia::Info(t)) if t.len() == 2
    ));
    assert!(matches!(
        persistidor.cambiar_archivo("nadie.txt".to_string()),
        Err(MensajePersistencia::ArchivoAPersistir(a)) if a == "nadie.txt"
    ));
}
