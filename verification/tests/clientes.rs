use redis_nucleo::cliente_redis::{ClienteRedis, RedisError};
use redis_nucleo::comando::ResultadoRedis;

#[test]
fn el_cliente_se_nombra_por_su_token_y_su_direccion() {
    let c = ClienteRedis::new(12, 0, 0);
    assert_eq!(c.obtener_token(), 12);
    assert_eq!(c.obtener_addr(None), "Token: 12");
    assert_eq!(c.obtener_addr(Some("127.0.0.1:6379")), "Token: 12 IP: 127.0.0.1:6379");
    assert_eq!(c.sin_socket().obtener_addr(Some("127.0.0.1:6379")), "Token: 12");
    assert!(c.soporta_comando("GET"));
}

#[test]
fn dos_clientes_son_iguales_si_tienen_el_mismo_token() {
    let a = ClienteRedis::new(1, 0, 0);
    let b = ClienteRedis::new(1, 60, 5_000).sin_socket();
    let c = ClienteRedis::new(2, 0, 0);
    assert!(a == b);
    assert!(a != c);
}

#[test]
fn sin_timeout_el_cliente_sigue_conectado_mientras_haya_bytes() {
    let c = ClienteRedis::new(1, 0, 1_000);
    assert!(c.esta_conectado(Some(5), u64::MAX));
    assert!(!c.esta_conectado(Some(0), 1_000));
    assert!(!c.esta_conectado(None, 1_000));
    assert!(!c.sin_socket().esta_conectado(Some(5), 1_000));
    assert!(c.envio_informacion(Some(1)));
    assert!(!c.envio_informacion(Some(0)));
    assert!(!c.envio_informacion(None));
    assert!(!c.sin_socket().envio_informacion(Some(1)));
}

#[test]
fn con_timeout_el_silencio_desconecta() {
    let mut c = ClienteRedis::new(1, 2, 10_000);
    assert!(c.esta_conectado(Some(1), 10_000));
    assert!(c.esta_conectado(Some(1), 12_000));
    assert!(!c.esta_conectado(Some(1), 12_001));
    assert!(c.esta_conectado(Some(1), 9_000));
    assert_eq!(
        c.enviar_mensaje("hola".to_string(), 12_001),
        Ok("hola".to_string())
    );
    assert!(c.esta_conectado(Some(1), 14_001));
    assert!(!c.esta_conectado(Some(1), 14_002));
    let largo = ClienteRedis::new(1, u64::MAX, 0);
    assert!(largo.esta_conectado(Some(1), u64::MAX));
}

#[test]
fn el_resultado_sale_enmarcado_y_sin_socket_no_sale() {
    let mut c = ClienteRedis::new(1, 0, 0);
    assert_eq!(
        c.enviar_resultado(&ResultadoRedis::BulkStr("hi".to_string()), 5),
        Ok("$2\r\nhi\r\n".to_string())
    );
    let mut roto = c.sin_socket();
    assert_eq!(
        roto.enviar_resultado(&ResultadoRedis::Int(1), 5),
        Err(RedisError::Coneccion)
    );
    assert_eq!(
        roto.enviar_mensaje("x".to_string(), 5),
        Err(RedisError::Coneccion)
    );
}

#[test]
fn el_comando_se_lee_de_los_bytes_del_socket() {
    let c = ClienteRedis::new(1, 0, 0);
    let (mut comando, usados) = c
        .obtener_comando(b"*2\r\n$3\r\nget\r\n$1\r\nk\r\n")
        .unwrap()
        .unwrap();
    assert_eq!(usados, 20);
    assert_eq!(comando.get_nombre(), "GET");
    assert_eq!(comando.get_clave(), Some("k".to_string()));
    assert_eq!(
        c.obtener_comando(b"hola\r\n").map(|r| r.map(|p| p.1)),
        Err(RedisError::Server)
    );
    assert_eq!(
        c.sin_socket()
            .obtener_comando(b"*1\r\n$4\r\nPING\r\n")
            .map(|r| r.map(|p| p.1)),
        Err(RedisError::Coneccion)
    );
}
