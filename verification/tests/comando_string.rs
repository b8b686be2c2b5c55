use redis_nucleo::base_de_datos::BaseDeDatos;
use redis_nucleo::comando::{ResultadoRedis, TipoRedis};
use redis_nucleo::comando_info::ComandoInfo;
use redis_nucleo::comando_string_handler::{append, decrby, get, getdel, incrby, strlen};

#[test]
fn get_devuelve_el_valor_almacenado_en_el_hash() {
    let mut bdd: BaseDeDatos = BaseDeDatos::new("eliminame.txt".to_string());
    bdd.guardar_valor("miClave".to_string(), TipoRedis::Str("miValor".to_string()));
    let mut comando = ComandoInfo::new(vec!["get".to_string(), "miClave".to_string()]);

    assert_eq!(
        ResultadoRedis::BulkStr("miValor".to_string()),
        get(&mut comando, &mut bdd)
    );
}

#[test]
fn get_devuelve_error_al_ser_llamado_con_una_clave_que_correspondia_a_una_lista() {
    let mut bdd: BaseDeDatos = BaseDeDatos::new("eliminame.txt".to_string());
    bdd.guardar_valor("miClave".to_string(), TipoRedis::Lista(Vec::new()));
    let mut comando = ComandoInfo::new(vec!["get".to_string(), "miClave".to_string()]);

    assert_eq!(
        ResultadoRedis::Error("GetError error al obtener la clave".to_string()),
        get(&mut comando, &mut bdd)
    );
}

#[test]
fn set_almacena_un_valor_en_el_hash() {
    let mut bdd: BaseDeDatos = BaseDeDatos::new("eliminame.txt".to_string());
    let mut comando = ComandoInfo::new(vec![
        "get".to_string(),
        "miClave".to_string(),
        "miValor".to_string(),
    ]);

    assert_eq!(
        ResultadoRedis::StrSimple("OK".to_string()),
        redis_nucleo::comando_string_handler::set(&mut comando, &mut bdd)
    );
}

#[test]
fn append_agrega_el_string_enviado_al_final_del_string_guardado_con_la_misma_clave() {
    let mut bdd: BaseDeDatos = BaseDeDatos::new("eliminame.txt".to_string());
    bdd.guardar_valor("miClave".to_string(), TipoRedis::Str("miValor".to_string()));

    let mut comando = ComandoInfo::new(vec![
        "APPEND".to_string(),
        "miClave".to_string(),
        "conAlgoAppendeado".to_string(),
    ]);

    assert_eq!(ResultadoRedis::Int(24), append(&mut comando, &mut bdd));
    assert_eq!(
        ResultadoRedis::BulkStr("miValorconAlgoAppendeado".to_string()),
        get(&mut comando, &mut bdd)
    );
}

#[test]
fn append_agrega_un_string_al_hash_porque_no_hay_un_elemento_guarado_con_esa_clave() {
    let mut bdd: BaseDeDatos = BaseDeDatos::new("eliminame.txt".to_string());

    let mut comando = ComandoInfo::new(vec![
        "APPEND".to_string(),
        "miClave".to_string(),
        "conAlgoAppendeado".to_string(),
    ]);

    assert_eq!(ResultadoRedis::Int(17), append(&mut comando, &mut bdd));
    assert_eq!(
        ResultadoRedis::BulkStr("conAlgoAppendeado".to_string()),
        get(&mut comando, &mut bdd)
    );
}

#[test]
fn append_devuelve_error_al_ser_llamado_con_una_clave_que_correspondia_a_una_lista() {
    let mut bdd: BaseDeDatos = BaseDeDatos::new("eliminame.txt".to_string());
    bdd.guardar_valor("miClave".to_string(), TipoRedis::Lista(Vec::new()));
    let mut comando = ComandoInfo::new(vec![
        "APPEND".to_owned(),
        "miClave".to_string(),
        " palabra".to_owned(),
    ]);

    assert_eq!(
        ResultadoRedis::Error("GetError error al obtener la clave".to_string()),
        append(&mut comando, &mut bdd)
    );
}

#[test]
fn getdel_devuelve_el_valor_almacenado_en_el_hash() {
    let mut bdd: BaseDeDatos = BaseDeDatos::new("eliminame.txt".to_string());
    bdd.guardar_valor("miClave".to_string(), TipoRedis::Str("miValor".to_string()));

    let mut comando = ComandoInfo::new(vec!["get".to_string(), "miClave".to_string()]);

    assert_eq!(
        ResultadoRedis::BulkStr("miValor".to_string()),
        getdel(&mut comando, &mut bdd)
    );
    assert_eq!(
        ResultadoRedis::Error("GetError error al obtener la clave".to_string()),
        getdel(&mut comando, &mut bdd)
    );
}

#[test]
fn getdel_devuelve_error_al_ser_llamado_con_una_clave_que_correspondia_a_una_lista() {
    let mut bdd: BaseDeDatos = BaseDeDatos::new("eliminame.txt".to_string());
    bdd.guardar_valor("miClave".to_string(), TipoRedis::Lista(Vec::new()));
    let mut comando = ComandoInfo::new(vec!["get".to_string(), "miClave".to_string()]);

    assert_eq!(
        ResultadoRedis::Error("GetError error al obtener la clave".to_string()),
        get(&mut comando, &mut bdd)
    );
}

#[test]
fn strlen_devuelve_el_valor_almacenado_en_el_hash() {
    let mut bdd: BaseDeDatos = BaseDeDatos::new("eliminame.txt".to_string());
    bdd.guardar_valor("miClave".to_string(), TipoRedis::Str("miValor".to_string()));
    let mut comando = ComandoInfo::new(vec!["get".to_string(), "miClave".to_string()]);

    assert_eq!(ResultadoRedis::Int(7), strlen(&mut comando, &mut bdd));
}

#[test]
fn strlen_devuelve_error_al_ser_llamado_con_una_clave_que_correspondia_a_una_lista() {
    let mut bdd: BaseDeDatos = BaseDeDatos::new("eliminame.txt".to_string());
    bdd.guardar_valor("miClave".to_string(), TipoRedis::Lista(Vec::new()));
    let mut comando = ComandoInfo::new(vec!["get".to_string(), "miClave".to_string()]);

    assert_eq!(
        ResultadoRedis::Error("StrLen error al obtener la clave".to_string()),
        strlen(&mut comando, &mut bdd)
    );
}

#[test]
fn decrby_resta_correcatemente_un_valor_entero_a_una_clave_parseable() {
    let mut bdd: BaseDeDatos = BaseDeDatos::new("eliminame.txt".to_string());
    bdd.guardar_valor("miClave".to_string(), TipoRedis::Str("1".to_string()));
    let mut comando = ComandoInfo::new(vec![
        "decrby".to_string(),
        "miClave".to_string(),
        "1".to_string(),
    ]);

    assert_eq!(
        ResultadoRedis::BulkStr("0".to_string()),
        decrby(&mut comando, &mut bdd)
    );
}

#[test]
fn decrby_resta_correcatemente_un_valor_entero_a_una_clave_negativa_parseable() {
    let mut bdd: BaseDeDatos = BaseDeDatos::new("eliminame.txt".to_string());
    bdd.guardar_valor("miClave".to_string(), TipoRedis::Str("-10".to_string()));
    let mut comando = ComandoInfo::new(vec![
        "decrby".to_string(),
        "miClave".to_string(),
        "1".to_string(),
    ]);

    assert_eq!(
        ResultadoRedis::BulkStr("-11".to_string()),
        decrby(&mut comando, &mut bdd)
    );
}

#[test]
fn decrby_resta_correcatemente_un_valor_negativo_a_una_clave_parseable() {
    let mut bdd: BaseDeDatos = BaseDeDatos::new("eliminame.txt".to_string());
    bdd.guardar_valor("miClave".to_string(), TipoRedis::Str("10".to_string()));
    let mut comando = ComandoInfo::new(vec![
        "decrby".to_string(),
        "miClave".to_string(),
        "-1".to_string(),
    ]);

    assert_eq!(
        ResultadoRedis::BulkStr("11".to_string()),
        decrby(&mut comando, &mut bdd)
    );
}

#[test]
fn decrby_setea_correcatemente_un_valor_entero_a_una_clave_inexistente() {
    let mut bdd: BaseDeDatos = BaseDeDatos::new("eliminame.txt".to_string());
    let mut comando = ComandoInfo::new(vec![
        "decrby".to_string(),
        "miClave".to_string(),
        "-1".to_string(),
    ]);

    assert_eq!(
        ResultadoRedis::BulkStr("1".to_string()),
        decrby(&mut comando, &mut bdd)
    );
}

#[test]
fn decrby_devuelve_error_un_valor_entero_a_una_clave_inparseable() {
    let mut bdd: BaseDeDatos = BaseDeDatos::new("eliminame.txt".to_string());
    bdd.guardar_valor("miClave".to_string(), TipoRedis::Lista(Vec::new()));
    let mut comando = ComandoInfo::new(vec![
        "decrby".to_string(),
        "miClave".to_string(),
        "-1".to_string(),
    ]);

    assert_eq!(
        ResultadoRedis::Error("WRONGTYPE".to_string()),
        decrby(&mut comando, &mut bdd)
    );
}

#[test]
fn decrby_devuelve_error_un_valor_erroneo_a_una_clave_parseable() {
    let mut bdd: BaseDeDatos = BaseDeDatos::new("eliminame.txt".to_string());
    bdd.guardar_valor("miClave".to_string(), TipoRedis::Str("1".to_string()));
    let mut comando = ComandoInfo::new(vec![
        "decrby".to_string(),
        "miClave".to_string(),
        "a".to_string(),
    ]);

    assert_eq!(
        ResultadoRedis::Error("Parametro no es un int".to_string()),
        decrby(&mut comando, &mut bdd)
    );
}

#[test]
fn incrby_resta_correcatemente_un_valor_entero_a_una_clave_parseable() {
    let mut bdd: BaseDeDatos = BaseDeDatos::new("eliminame.txt".to_string());
    bdd.guardar_valor("miClave".to_string(), TipoRedis::Str("1".to_string()));
    let mut comando = ComandoInfo::new(vec![
        "incrby".to_string(),
        "miClave".to_string(),
        "1".to_string(),
    ]);

    assert_eq!(
        ResultadoRedis::BulkStr("2".to_string()),
        incrby(&mut comando, &mut bdd)
    );
}

#[test]
fn incrby_resta_correcatemente_un_valor_entero_a_una_clave_negativa_parseable() {
    let mut bdd: BaseDeDatos = BaseDeDatos::new("eliminame.txt".to_string());
    bdd.guardar_valor("miClave".to_string(), TipoRedis::Str("-10".to_string()));
    let mut comando = ComandoInfo::new(vec![
        "incrby".to_string(),
        "miClave".to_string(),
        "1".to_string(),
    ]);

    assert_eq!(
        ResultadoRedis::BulkStr("-9".to_string()),
        incrby(&mut comando, &mut bdd)
    );
}

#[test]
fn incrby_resta_correcatemente_un_valor_negativo_a_una_clave_parseable() {
    let mut bdd: BaseDeDatos = BaseDeDatos::new("eliminame.txt".to_string());
    bdd.guardar_valor("miClave".to_string(), TipoRedis::Str("10".to_string()));
    let mut comando = ComandoInfo::new(vec![
        "incrby".to_string(),
        "miClave".to_string(),
        "-1".to_string(),
    ]);

    assert_eq!(
        ResultadoRedis::BulkStr("9".to_string()),
        incrby(&mut comando, &mut bdd)
    );
}

#[test]
fn incrby_setea_correcatemente_un_valor_entero_a_una_clave_inexistente() {
    let mut bdd: BaseDeDatos = BaseDeDatos::new("eliminame.txt".to_string());
    let mut comando = ComandoInfo::new(vec![
        "incrby".to_string(),
        "miClave".to_string(),
        "1".to_string(),
    ]);

    assert_eq!(
        ResultadoRedis::BulkStr("1".to_string()),
        incrby(&mut comando, &mut bdd)
    );
}

#[test]
fn incrby_devuelve_error_un_valor_entero_a_una_clave_inparseable() {
    let mut bdd: BaseDeDatos = BaseDeDatos::new("eliminame.txt".to_string());
    bdd.guardar_valor("miClave".to_string(), TipoRedis::Lista(Vec::new()));
    let mut comando = ComandoInfo::new(vec![
        "incrby".to_string(),
        "miClave".to_string(),
        "5".to_string(),
    ]);

    assert_eq!(
        ResultadoRedis::Error("WRONGTYPE".to_string()),
        incrby(&mut comando, &mut bdd)
    );
}

#[test]
fn incrby_devuelve_error_un_valor_erroneo_a_una_clave_parseable() {
    let mut bdd: BaseDeDatos = BaseDeDatos::new("eliminame.txt".to_string());
    bdd.guardar_valor("miClave".to_string(), TipoRedis::Str("1".to_string()));
    let mut comando = ComandoInfo::new(vec![
        "incrby".to_string(),
        "miClave".to_string(),
        "a".to_string(),
    ]);

    assert_eq!(
        ResultadoRedis::Error("Parametro no es un int".to_string()),
        incrby(&mut comando, &mut bdd)
    );
}
