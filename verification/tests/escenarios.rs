use redis_nucleo::base_de_datos::BaseDeDatos;
use redis_nucleo::canal::{Cliente, Envio};
use redis_nucleo::comando::{crear_comando_handler, ComandoHandler, ResultadoRedis};
use redis_nucleo::parser::{parsear_respuesta, parsear_stream};
use redis_nucleo::persistencia::{
    levantar_tabla, AccionPersistencia, MensajePersistencia, PersistidorHandler,
};

fn peticion(palabras: &[&str]) -> Vec<u8> {
    let mut bytes = format!("*{}\r\n", palabras.len()).into_bytes();
    for p in palabras {
        bytes.extend_from_slice(format!("${}\r\n", p.len()).as_bytes());
        bytes.extend_from_slice(p.as_bytes());
        bytes.extend_from_slice(b"\r\n");
    }
    bytes
}

fn atender(bdd: &mut BaseDeDatos, cliente: u64, palabras: &[&str]) -> String {
    let entrada = peticion(palabras);
    let (comando, usados) = parsear_stream(&entrada).unwrap();
    assert_eq!(usados, entrada.len());
    let manejador = crear_comando_handler(comando, Cliente::new(cliente));
    parsear_respuesta(&manejador.ejecutar(bdd))
}

#[test]
fn set_y_get_por_el_cable() {
    let mut bdd = BaseDeDatos::new("db.txt".to_string());
    assert_eq!(atender(&mut bdd, 1, &["SET", "foo", "bar"]), "+OK\r\n");
    assert_eq!(atender(&mut bdd, 1, &["GET", "foo"]), "$3\r\nbar\r\n");
}

#[test]
fn el_nombre_del_comando_no_distingue_mayusculas() {
    let mut bdd = BaseDeDatos::new("db.txt".to_string());
    assert_eq!(atender(&mut bdd, 1, &["set", "foo", "bar"]), "+OK\r\n");
    assert_eq!(atender(&mut bdd, 1, &["gEt", "foo"]), "$3\r\nbar\r\n");
}

#[test]
fn el_ultimo_set_decide_el_get() {
    let mut bdd = BaseDeDatos::new("db.txt".to_string());
    atender(&mut bdd, 1, &["SET", "k", "uno"]);
    atender(&mut bdd, 1, &["SET", "otra", "x"]);
    atender(&mut bdd, 1, &["GET", "k"]);
    atender(&mut bdd, 1, &["SET", "k", "dos"]);
    atender(&mut bdd, 1, &["SET", "otra", "y"]);
    assert_eq!(atender(&mut bdd, 1, &["GET", "k"]), "$3\r\ndos\r\n");
    assert_eq!(atender(&mut bdd, 1, &["GET", "otra"]), "$1\r\ny\r\n");
}

#[test]
fn contador_con_incrby_y_decrby() {
    let mut bdd = BaseDeDatos::new("db.txt".to_string());
    assert_eq!(atender(&mut bdd, 1, &["SET", "counter", "10"]), "+OK\r\n");
    assert_eq!(atender(&mut bdd, 1, &["INCRBY", "counter", "5"]), "$2\r\n15\r\n");
    assert_eq!(atender(&mut bdd, 1, &["DECRBY", "counter", "20"]), "$2\r\n-5\r\n");
    assert_eq!(atender(&mut bdd, 1, &["GET", "counter"]), "$2\r\n-5\r\n");
}

#[test]
fn incrby_sobre_clave_ausente_parte_de_cero() {
    let mut bdd = BaseDeDatos::new("db.txt".to_string());
    assert_eq!(atender(&mut bdd, 1, &["INCRBY", "missing", "5"]), "$1\r\n5\r\n");
    assert_eq!(atender(&mut bdd, 1, &["GET", "missing"]), "$1\r\n5\r\n");
}

#[test]
fn incrby_da_la_vuelta_en_32_bits() {
    let mut bdd = BaseDeDatos::new("db.txt".to_string());
    atender(&mut bdd, 1, &["SET", "n", "2147483647"]);
    assert_eq!(
        atender(&mut bdd, 1, &["INCRBY", "n", "1"]),
        "$11\r\n-2147483648\r\n"
    );
    assert_eq!(
        atender(&mut bdd, 1, &["DECRBY", "n", "1"]),
        "$10\r\n2147483647\r\n"
    );
}

#[test]
fn incrby_sin_parametro_y_con_valor_no_entero() {
    let mut bdd = BaseDeDatos::new("db.txt".to_string());
    assert_eq!(
        atender(&mut bdd, 1, &["INCRBY", "n"]),
        "-ParametroError no se encontro un parametro\r\n"
    );
    atender(&mut bdd, 1, &["SET", "n", "hola"]);
    assert_eq!(
        atender(&mut bdd, 1, &["INCRBY", "n", "1"]),
        "-Valor no es un int\r\n"
    );
    atender(&mut bdd, 1, &["SET", "n", "2147483648"]);
    assert_eq!(
        atender(&mut bdd, 1, &["INCRBY", "n", "1"]),
        "-Valor no es un int\r\n"
    );
    assert_eq!(
        atender(&mut bdd, 1, &["INCRBY"]),
        "-ClaveError no se encontro una clave\r\n"
    );
}

#[test]
fn append_dos_veces_y_get() {
    let mut bdd = BaseDeDatos::new("db.txt".to_string());
    assert_eq!(atender(&mut bdd, 1, &["APPEND", "s", "Hello"]), ":5\r\n");
    assert_eq!(atender(&mut bdd, 1, &["APPEND", "s", "World"]), ":10\r\n");
    assert_eq!(atender(&mut bdd, 1, &["GET", "s"]), "$10\r\nHelloWorld\r\n");
}

#[test]
fn las_longitudes_se_cuentan_en_bytes() {
    let mut bdd = BaseDeDatos::new("db.txt".to_string());
    assert_eq!(atender(&mut bdd, 1, &["APPEND", "s", "ñandú"]), ":7\r\n");
    assert_eq!(atender(&mut bdd, 1, &["STRLEN", "s"]), ":7\r\n");
    assert_eq!(atender(&mut bdd, 1, &["GET", "s"]), "$7\r\nñandú\r\n");
}

#[test]
fn getdel_entrega_y_borra() {
    let mut bdd = BaseDeDatos::new("db.txt".to_string());
    atender(&mut bdd, 1, &["SET", "k", "v"]);
    assert_eq!(atender(&mut bdd, 1, &["GETDEL", "k"]), "$1\r\nv\r\n");
    assert_eq!(
        atender(&mut bdd, 1, &["GET", "k"]),
        "-GetError error al obtener la clave\r\n"
    );
    assert!(!bdd.existe_clave("k"));
}

#[test]
fn get_de_clave_ausente_es_error() {
    let mut bdd = BaseDeDatos::new("db.txt".to_string());
    assert_eq!(
        atender(&mut bdd, 1, &["GET", "nada"]),
        "-GetError error al obtener la clave\r\n"
    );
    assert_eq!(
        atender(&mut bdd, 1, &["GET"]),
        "-ClaveError no se encontro una clave\r\n"
    );
    assert_eq!(
        atender(&mut bdd, 1, &["SET", "k"]),
        "-ParametroError no se envio el parametro\r\n"
    );
    assert_eq!(
        atender(&mut bdd, 1, &["STRLEN", "nada"]),
        "-StrLen error al obtener la clave\r\n"
    );
}

#[test]
fn comando_desconocido_es_error_y_no_cambia_nada() {
    let mut bdd = BaseDeDatos::new("db.txt".to_string());
    assert_eq!(
        atender(&mut bdd, 1, &["FLUSHALL", "k", "v"]),
        "-unknown command\r\n"
    );
    assert_eq!(atender(&mut bdd, 1, &[]), "-unknown command\r\n");
    assert!(!bdd.existe_clave("k"));
    assert_eq!(bdd.tomar_notificaciones().len(), 0);
}

#[test]
fn subscribe_y_publish_entre_dos_clientes() {
    let mut bdd = BaseDeDatos::new("db.txt".to_string());
    assert_eq!(atender(&mut bdd, 7, &["SUBSCRIBE", "news"]), ":1\r\n");
    assert_eq!(atender(&mut bdd, 8, &["PUBLISH", "news", "hi"]), ":1\r\n");
    let envios = bdd.tomar_envios();
    assert_eq!(
        envios,
        vec![Envio {
            destino: 7,
            mensaje: "hi".to_string()
        }]
    );
    assert_eq!(
        parsear_respuesta(&ResultadoRedis::BulkStr(envios[0].mensaje.clone())),
        "$2\r\nhi\r\n"
    );
    assert_eq!(bdd.tomar_envios().len(), 0);
}

#[test]
fn publish_llega_a_todos_en_orden_de_suscripcion() {
    let mut bdd = BaseDeDatos::new("db.txt".to_string());
    atender(&mut bdd, 3, &["SUBSCRIBE", "c"]);
    atender(&mut bdd, 1, &["SUBSCRIBE", "c"]);
    atender(&mut bdd, 2, &["SUBSCRIBE", "c"]);
    atender(&mut bdd, 1, &["SUBSCRIBE", "c"]);
    assert_eq!(atender(&mut bdd, 9, &["PUBLISH", "c", "m"]), ":3\r\n");
    let destinos: Vec<u64> = bdd.tomar_envios().iter().map(|e| e.destino).collect();
    assert_eq!(destinos, vec![3, 1, 2]);
}

#[test]
fn publish_sobre_lo_que_no_es_canal() {
    let mut bdd = BaseDeDatos::new("db.txt".to_string());
    assert_eq!(
        atender(&mut bdd, 1, &["PUBLISH", "nada", "m"]),
        "-WrongType tipo de dato no es un canal\r\n"
    );
    atender(&mut bdd, 1, &["SET", "texto", "v"]);
    assert_eq!(
        atender(&mut bdd, 1, &["PUBLISH", "texto", "m"]),
        "-WrongType tipo de dato no es un canal\r\n"
    );
    assert_eq!(
        atender(&mut bdd, 1, &["SUBSCRIBE", "texto"]),
        "-WrongType tipo de dato no es un canal\r\n"
    );
    assert_eq!(
        atender(&mut bdd, 1, &["PUBLISH", "c"]),
        "-ParametroError no se envio el parametro\r\n"
    );
    assert_eq!(bdd.tomar_envios().len(), 0);
}

#[test]
fn subscribe_sin_canales_responde_cero() {
    let mut bdd = BaseDeDatos::new("db.txt".to_string());
    assert_eq!(atender(&mut bdd, 1, &["SUBSCRIBE"]), ":0\r\n");
    assert_eq!(atender(&mut bdd, 1, &["UNSUBSCRIBE"]), ":0\r\n");
}

#[test]
fn unsubscribe_quita_una_vez_y_repetirlo_no_cambia_nada() {
    let mut bdd = BaseDeDatos::new("db.txt".to_string());
    atender(&mut bdd, 1, &["SUBSCRIBE", "c"]);
    atender(&mut bdd, 2, &["SUBSCRIBE", "c"]);
    assert_eq!(atender(&mut bdd, 1, &["UNSUBSCRIBE", "c"]), ":1\r\n");
    assert_eq!(atender(&mut bdd, 9, &["PUBSUB", "NUMSUB", "c"]), "*1\r\n:1\r\n");
    assert_eq!(atender(&mut bdd, 1, &["UNSUBSCRIBE", "c"]), ":1\r\n");
    assert_eq!(atender(&mut bdd, 9, &["PUBSUB", "NUMSUB", "c"]), "*1\r\n:1\r\n");
    assert_eq!(atender(&mut bdd, 9, &["PUBLISH", "c", "m"]), ":1\r\n");
    assert_eq!(bdd.tomar_envios()[0].destino, 2);
    assert_eq!(
        atender(&mut bdd, 1, &["UNSUBSCRIBE", "nada"]),
        "-WrongType tipo de dato no es un canal\r\n"
    );
}

#[test]
fn pubsub_channels_y_numsub() {
    let mut bdd = BaseDeDatos::new("db.txt".to_string());
    assert_eq!(atender(&mut bdd, 1, &["SUBSCRIBE", "c1"]), ":1\r\n");
    assert_eq!(atender(&mut bdd, 1, &["SUBSCRIBE", "c2"]), ":1\r\n");
    assert_eq!(
        atender(&mut bdd, 2, &["PUBSUB", "CHANNELS", "*"]),
        "*2\r\n$2\r\nc1\r\n$2\r\nc2\r\n"
    );
    assert_eq!(
        atender(&mut bdd, 2, &["PUBSUB", "NUMSUB", "c1", "c2"]),
        "*2\r\n:1\r\n:1\r\n"
    );
    assert_eq!(
        atender(&mut bdd, 2, &["PUBSUB", "CHANNELS", "?2"]),
        "*1\r\n$2\r\nc2\r\n"
    );
    assert_eq!(
        atender(&mut bdd, 2, &["PUBSUB", "NUMSUB", "c1", "nada"]),
        "-WrongType tipo de dato no es un canal\r\n"
    );
    assert_eq!(
        atender(&mut bdd, 2, &["PUBSUB", "CHANNELS"]),
        "-ParametroError no se envio el parametro\r\n"
    );
    assert_eq!(
        atender(&mut bdd, 2, &["PUBSUB", "OTRA", "x"]),
        "-ClaveError no se encontro una clave\r\n"
    );
    assert_eq!(
        atender(&mut bdd, 2, &["PUBSUB"]),
        "-ClaveError no se encontro una clave\r\n"
    );
    assert_eq!(atender(&mut bdd, 2, &["PUBSUB", "NUMSUB"]), "*0\r\n");
}

#[test]
fn un_canal_sin_suscriptores_no_esta_activo() {
    let mut bdd = BaseDeDatos::new("db.txt".to_string());
    atender(&mut bdd, 1, &["SUBSCRIBE", "c1", "c2"]);
    atender(&mut bdd, 1, &["UNSUBSCRIBE", "c1"]);
    assert_eq!(
        atender(&mut bdd, 2, &["PUBSUB", "CHANNELS", "*"]),
        "*1\r\n$2\r\nc2\r\n"
    );
    assert_eq!(
        atender(&mut bdd, 2, &["PUBSUB", "NUMSUB", "c1"]),
        "*1\r\n:0\r\n"
    );
}

#[test]
fn set_se_persiste_y_vuelve_tras_reiniciar() {
    let mut bdd = BaseDeDatos::new("db.txt".to_string());
    bdd.fijar_reloj(5_000);
    atender(&mut bdd, 1, &["SET", "k", "v"]);
    let notificaciones = bdd.tomar_notificaciones();
    assert_eq!(notificaciones.len(), 1);

    let mut actor = PersistidorHandler::new(bdd.archivo().clone(), 1, 5_000);
    let mut escrito: Vec<String> = Vec::new();
    for tabla in notificaciones {
        match actor.persistir(MensajePersistencia::Info(tabla), 6_000) {
            AccionPersistencia::Escribir { archivo, lineas } => {
                assert_eq!(archivo, "db.txt");
                escrito = lineas;
                assert!(actor.escritura_terminada(true, 6_000));
            }
            _ => panic!("el intervalo ya paso"),
        }
    }
    assert_eq!(escrito, vec!["STRING:k:v".to_string()]);

    let mut reiniciada = BaseDeDatos::new("db.txt".to_string());
    reiniciada.cargar(levantar_tabla(&escrito, 9_000));
    reiniciada.fijar_reloj(9_000);
    assert_eq!(atender(&mut reiniciada, 1, &["GET", "k"]), "$1\r\nv\r\n");
}
