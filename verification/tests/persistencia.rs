use redis_nucleo::comando::TipoRedis;
use redis_nucleo::persistencia::guardar_clave_valor;
use redis_nucleo::valor::Valor;
use std::collections::HashMap;

#[test]
fn inserto_varios_strings_en_hash_map_y_guardar_clave_valor_devuelve_el_mensaje_para_volver_a_cargarlos(
) {
    let mut map = HashMap::new();
    map.insert(
        "UnaClave1",
        Valor::no_expirable(TipoRedis::Str("UnValor".to_string())),
    );
    map.insert(
        "UnaClave2",
        Valor::no_expirable(TipoRedis::Str("UnValor".to_string())),
    );
    map.insert(
        "UnaClave3",
        Valor::no_expirable(TipoRedis::Str("UnValor".to_string())),
    );

    let mut vector: Vec<String> = vec![];
    for (key, val) in map.iter() {
        vector.push(guardar_clave_valor(
            key.to_string(),
            val.get(),
            val.get_tiempo(),
        ));
    }
    assert!(vector.contains(&"STRING:UnaClave1:UnValor".to_string()));
    assert!(vector.contains(&"STRING:UnaClave2:UnValor".to_string()));
    assert!(vector.contains(&"STRING:UnaClave3:UnValor".to_string()));
}

#[test]
fn inserto_varios_tipo_redis_en_hash_map_y_guardar_clave_valor_devuelve_el_mensaje_para_volver_a_cargarlos(
) {
    let mut map = HashMap::new();
    map.insert(
        "UnaClave1",
        Valor::no_expirable(TipoRedis::Str("UnValor".to_string())),
    );
    map.insert(
        "UnaClave2",
        Valor::no_expirable(TipoRedis::Str("UnValor".to_string())),
    );

    let mut lista = TipoRedis::Lista(Vec::new());

    match lista {
        TipoRedis::Lista(ref mut lista) => {
            lista.push("PRIMER_VALOR".to_string());
            lista.push("SEGUNDO_VALOR".to_string());
            lista.push("TERCER_VALOR".to_string());
        }
        _ => {}
    }

    map.insert("milista", Valor::no_expirable(lista));

    let mut vector: Vec<String> = vec![];
    for (key, val) in map.iter() {
        vector.push(guardar_clave_valor(
            key.to_string(),
            val.get(),
            val.get_tiempo(),
        ));
    }
    assert!(vector.contains(&"STRING:UnaClave1:UnValor".to_string()));
    assert!(vector.contains(&"STRING:UnaClave2:UnValor".to_string()));
    assert!(
        vector.contains(&"LIST:milista:PRIMER_VALOR:SEGUNDO_VALOR:TERCER_VALOR".to_string())
    );
}

#[test]
fn inserto_varios_strings_con_persistencia_en_hash_map_y_guardar_clave_valor_devuelve_el_mensaje_para_volver_a_cargarlos(
) {
    let mut map = HashMap::new();
    map.insert(
        "UnaClave1",
        Valor::expirable(TipoRedis::Str("UnValor".to_string()), 3000),
    );
    map.insert(
        "UnaClave2",
        Valor::expirable(TipoRedis::Str("UnValor".to_string()), 3000),
    );
    map.insert(
        "UnaClave3",
        Valor::expirable(TipoRedis::Str("UnValor".to_string()), 3000),
    );

    let mut lista = TipoRedis::Lista(Vec::new());

    match lista {
        TipoRedis::Lista(ref mut lista) => {
            lista.push("PRIMER_VALOR".to_string());
            lista.push("SEGUNDO_VALOR".to_string());
            lista.push("TERCER_VALOR".to_string());
        }
        _ => {}
    }

    map.insert("milista", Valor::expirable(lista, 4500));

    let mut vector: Vec<String> = vec![];
    for (key, val) in map.iter() {
        vector.push(guardar_clave_valor(
            key.to_string(),
            val.get(),
            val.get_tiempo(),
        ));
    }
    assert!(vector.contains(&"STRING:UnaClave1:UnValor:EX:3000".to_string()));
    assert!(vector.contains(&"STRING:UnaClave2:UnValor:EX:3000".to_string()));
    assert!(vector.contains(&"STRING:UnaClave3:UnValor:EX:3000".to_string()));
    assert!(vector
        .contains(&"LIST:milista:PRIMER_VALOR:SEGUNDO_VALOR:TERCER_VALOR:EX:4500".to_string()));
}
