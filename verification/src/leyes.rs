//! Laws that the commands obey together, each proved from the contracts of
//! the commands that it speaks of.
use vstd::prelude::*;
use crate::base_de_datos::{
    lema_tras_eliminar, lema_tras_guardar, lema_tras_obtener, permanente, temporal, EstadoBase,
};
use crate::canal::{envios_de, Token};
use crate::comando::{efecto_comando, Dato, Respuesta};
use crate::comando_info::ComandoVista;
use crate::comando_pubsub_handler::{
    contar_todos, desuscribir_todos, efecto_publish, efecto_subscribe, efecto_unsubscribe,
    suscribir_todos,
};
use crate::comando_string_handler::{
    aplicar, efecto_append, efecto_get, efecto_getdel, efecto_operar, efecto_string, error_get,
    operacion_string, Operacion, OperacionString,
};
use crate::persistencia::{
    campos, campos_de_plazo, carga_expirable, elementos_de, entrada_de, linea, lineas, plazo_de,
    tabla_de,
};
use crate::secuencias::{
    agregar, lema_primera_contiene, lema_retirar, retirar, sin_repetidos,
};
use crate::tabla::{buscar, claves, claves_unicas, Filas};
use crate::texto::{
    decimal, decimal_nat, es_digito, i32_de, lema_decimal_nat, lema_entero_de_decimal,
    lema_partir_unir, lema_u64_de_decimal, longitud, partir, sin_separador,
};
use crate::valor::{Plazo, ValorVista};
use vstd::string::*;

verus! {

/// The command asks for `clave` as its key and has `parametro` as the
/// argument after it.
pub open spec fn se_dirige_a(c: ComandoVista, clave: Seq<char>, parametro: Seq<char>) -> bool {
    c.clave_disponible() == Some(clave) && c.tras_clave().parametro_disponible() == Some(
        parametro,
    )
}

/// The command is a SET of `valor` under `clave`.
pub open spec fn es_escritura(c: ComandoVista, clave: Seq<char>, valor: Seq<char>) -> bool {
    operacion_string(c.nombre) == OperacionString::Guardar && se_dirige_a(c, clave, valor)
}

/// The command is a SET whose key is `clave`.
pub open spec fn escribe_en(c: ComandoVista, clave: Seq<char>) -> bool {
    operacion_string(c.nombre) == OperacionString::Guardar && c.clave_disponible() == Some(clave)
}

/// The command is a GET or a SET.
pub open spec fn lee_o_escribe(c: ComandoVista) -> bool {
    operacion_string(c.nombre) == OperacionString::Obtener || operacion_string(c.nombre)
        == OperacionString::Guardar
}

/// The store after the string commands `cs` ran on it one after the other.
pub open spec fn tras_comandos(cs: Seq<ComandoVista>, b: EstadoBase) -> EstadoBase
    decreases cs.len(),
{
    if cs.len() == 0 {
        b
    } else {
        efecto_string(
            operacion_string(cs.last().nombre),
            cs.last(),
            tras_comandos(cs.drop_last(), b),
        ).base
    }
}

proof fn lema_paso(c: ComandoVista, b: EstadoBase, clave: Seq<char>)
    requires
        b.valido(),
        lee_o_escribe(c),
    ensures
        efecto_string(operacion_string(c.nombre), c, b).base.valido(),
        !escribe_en(c, clave) ==> efecto_string(operacion_string(c.nombre), c, b).base.visible(
            clave,
        ) == b.visible(clave),
        forall|v: Seq<char>|
            es_escritura(c, clave, v) ==> efecto_string(
                operacion_string(c.nombre),
                c,
                b,
            ).base.visible(clave) == Some(Dato::Texto(v)),
{
    match c.clave_disponible() {
        Some(k) => {
            if operacion_string(c.nombre) == OperacionString::Obtener {
                lema_tras_obtener(b, k, clave);
            } else {
                match c.tras_clave().parametro_disponible() {
                    Some(p) => {
                        lema_tras_guardar(b, k, permanente(Dato::Texto(p)), clave);
                    },
                    None => {},
                }
            }
        },
        None => {},
    }
}

proof fn lema_tras_comandos(
    cs: Seq<ComandoVista>,
    b: EstadoBase,
    i: int,
    clave: Seq<char>,
    valor: Seq<char>,
)
    requires
        b.valido(),
        forall|j: int| 0 <= j < cs.len() ==> lee_o_escribe(#[trigger] cs[j]),
        0 <= i < cs.len(),
        es_escritura(cs[i], clave, valor),
        forall|j: int| i < j < cs.len() ==> !escribe_en(#[trigger] cs[j], clave),
    ensures
        tras_comandos(cs, b).valido(),
        tras_comandos(cs, b).visible(clave) == Some(Dato::Texto(valor)),
    decreases cs.len(),
{
    let antes = cs.drop_last();
    lema_validez(antes, b);
    lema_paso(cs.last(), tras_comandos(antes, b), clave);
    if i < cs.len() - 1 {
        assert(antes[i] == cs[i]);
        assert forall|j: int| i < j < antes.len() implies !escribe_en(#[trigger] antes[j], clave) by {
            assert(antes[j] == cs[j]);
        }
        assert forall|j: int| 0 <= j < antes.len() implies lee_o_escribe(#[trigger] antes[j]) by {
            assert(antes[j] == cs[j]);
        }
        lema_tras_comandos(antes, b, i, clave, valor);
        assert(!escribe_en(cs[cs.len() - 1], clave));
    }
}

proof fn lema_validez(cs: Seq<ComandoVista>, b: EstadoBase)
    requires
        b.valido(),
        forall|j: int| 0 <= j < cs.len() ==> lee_o_escribe(#[trigger] cs[j]),
    ensures
        tras_comandos(cs, b).valido(),
    decreases cs.len(),
{
    if cs.len() > 0 {
        let antes = cs.drop_last();
        assert forall|j: int| 0 <= j < antes.len() implies lee_o_escribe(#[trigger] antes[j]) by {
            assert(antes[j] == cs[j]);
        }
        lema_validez(antes, b);
        lema_paso(cs.last(), tras_comandos(antes, b), Seq::<char>::empty());
    }
}

/// After any run of GET and SET commands, a GET of a key is answered with
/// the value of the last SET of that key in the run.
pub proof fn ley_ultima_escritura(
    cs: Seq<ComandoVista>,
    b: EstadoBase,
    i: int,
    clave: Seq<char>,
    valor: Seq<char>,
    lectura: ComandoVista,
)
    requires
        b.valido(),
        forall|j: int| 0 <= j < cs.len() ==> lee_o_escribe(#[trigger] cs[j]),
        0 <= i < cs.len(),
        es_escritura(cs[i], clave, valor),
        forall|j: int| i < j < cs.len() ==> !escribe_en(#[trigger] cs[j], clave),
        lectura.clave_disponible() == Some(clave),
    ensures
        efecto_get(lectura, tras_comandos(cs, b)).respuesta == Respuesta::BulkStr(valor),
{
    lema_tras_comandos(cs, b, i, clave, valor);
}

/// The text that a key holds for APPEND: empty for a key that is absent.
pub open spec fn texto_previo(b: EstadoBase, clave: Seq<char>) -> Seq<char> {
    match b.visible(clave) {
        Some(Dato::Texto(v)) => v,
        _ => Seq::<char>::empty(),
    }
}

/// APPEND on a key that holds a text, or is absent, answers with the length
/// of the old text followed by the suffix, and a GET of the key then gives
/// that text.
pub proof fn ley_append_get(
    anexo: ComandoVista,
    lectura: ComandoVista,
    b: EstadoBase,
    clave: Seq<char>,
    sufijo: Seq<char>,
)
    requires
        b.valido(),
        se_dirige_a(anexo, clave, sufijo),
        lectura.clave_disponible() == Some(clave),
        b.visible(clave) is None || b.visible(clave)->0 is Texto,
    ensures
        efecto_append(anexo, b).respuesta == Respuesta::Int(
            longitud(texto_previo(b, clave) + sufijo),
        ),
        efecto_get(lectura, efecto_append(anexo, b).base).respuesta == Respuesta::BulkStr(
            texto_previo(b, clave) + sufijo,
        ),
{
    let nuevo = texto_previo(b, clave) + sufijo;
    lema_tras_guardar(b, clave, permanente(Dato::Texto(nuevo)), clave);
    if b.visible(clave) is None {
        assert(nuevo =~= sufijo);
    }
}

/// GETDEL answers as GET does, and afterwards the key is absent: a GET of it
/// gives its error, and no other key has changed for a reader.
pub proof fn ley_getdel(
    orden: ComandoVista,
    lectura: ComandoVista,
    b: EstadoBase,
    clave: Seq<char>,
    otra: Seq<char>,
)
    requires
        b.valido(),
        orden.clave_disponible() == Some(clave),
        lectura.clave_disponible() == Some(clave),
        otra != clave,
    ensures
        efecto_getdel(orden, b).respuesta == efecto_get(orden, b).respuesta,
        efecto_getdel(orden, b).base.visible(clave) is None,
        efecto_get(lectura, efecto_getdel(orden, b).base).respuesta == error_get(),
        efecto_getdel(orden, b).base.visible(otra) == b.visible(otra),
{
    let leido = b.tras_obtener(clave);
    lema_tras_obtener(b, clave, otra);
    lema_tras_eliminar(leido, clave, clave);
    lema_tras_eliminar(leido, clave, otra);
}

/// With the numeral of `a` stored under a key, INCRBY by `n` answers with
/// the numeral of `a + n`, DECRBY with that of `a - n`, wrapped around to 32
/// bits, and a GET of the key then gives the same numeral. Where the exact
/// result fits in 32 bits, the numeral is that of the exact result.
pub proof fn ley_operar_get(
    operacion: Operacion,
    orden: ComandoVista,
    lectura: ComandoVista,
    b: EstadoBase,
    clave: Seq<char>,
    a: i32,
    parametro: Seq<char>,
    n: i32,
)
    requires
        b.valido(),
        se_dirige_a(orden, clave, parametro),
        i32_de(parametro) == Some(n),
        lectura.clave_disponible() == Some(clave),
        b.visible(clave) == Some(Dato::Texto(decimal(a as int))),
    ensures
        efecto_operar(orden, b, operacion).respuesta == Respuesta::BulkStr(
            decimal(aplicar(operacion, a, n) as int),
        ),
        efecto_get(lectura, efecto_operar(orden, b, operacion).base).respuesta
            == Respuesta::BulkStr(decimal(aplicar(operacion, a, n) as int)),
        -2147483648 <= a + n <= 2147483647 ==> aplicar(Operacion::Sumar, a, n) == a + n,
        -2147483648 <= a - n <= 2147483647 ==> aplicar(Operacion::Restar, a, n) == a - n,
{
    lema_entero_de_decimal(a as int);
    let r = decimal(aplicar(operacion, a, n) as int);
    let b1 = b.tras_obtener(clave);
    lema_tras_obtener(b, clave, clave);
    lema_tras_guardar(b1, clave, permanente(Dato::Texto(r)), clave);
}

/// Storing the numeral of `a` under a key makes `a` what INCRBY and DECRBY
/// find there.
pub proof fn ley_guardar_entero(b: EstadoBase, clave: Seq<char>, a: i32)
    ensures
        b.tras_guardar(clave, permanente(Dato::Texto(decimal(a as int)))).visible(clave) == Some(
            Dato::Texto(decimal(a as int)),
        ),
        i32_de(decimal(a as int)) == Some(a),
{
    lema_tras_guardar(b, clave, permanente(Dato::Texto(decimal(a as int))), clave);
    lema_entero_de_decimal(a as int);
}

/// A value stored with a lifetime of `segundos` seconds is there for a
/// reader as long as fewer than `segundos` seconds have gone by on the clock
/// of the store, and absent from then on: GET gives its error and the key
/// does not exist.
pub proof fn ley_expiracion(
    b: EstadoBase,
    clave: Seq<char>,
    texto: Seq<char>,
    segundos: u64,
    ahora: u64,
    lectura: ComandoVista,
)
    requires
        ahora >= b.reloj,
        lectura.clave_disponible() == Some(clave),
    ensures
        ({
            let guardado = b.tras_guardar(clave, temporal(Dato::Texto(texto), b.reloj, segundos));
            let despues = EstadoBase { reloj: ahora, ..guardado };
            &&& despues.visible(clave) is Some <==> ahora - b.reloj < segundos * 1000
            &&& efecto_get(lectura, despues).respuesta == if ahora - b.reloj < segundos * 1000 {
                Respuesta::BulkStr(texto)
            } else {
                error_get()
            }
        }),
{
    let v = temporal(Dato::Texto(texto), b.reloj, segundos);
    crate::tabla::lema_poner(b.filas, clave, v, clave);
    let guardado = b.tras_guardar(clave, v);
    let despues = EstadoBase { reloj: ahora, ..guardado };
    assert(despues.visible(clave) == v.visible(ahora));
    let pasados = (ahora - b.reloj) / 1000;
    assert(pasados < segundos <==> ahora - b.reloj < segundos * 1000) by (nonlinear_arith)
        requires
            pasados == (ahora - b.reloj) / 1000,
            ahora - b.reloj >= 0,
    ;
}

/// The subscribers of the channel under `clave`; none for a key that is
/// absent.
pub open spec fn suscriptores(b: EstadoBase, clave: Seq<char>) -> Seq<Token> {
    match b.visible(clave) {
        Some(Dato::Canal(s)) => s,
        _ => Seq::<Token>::empty(),
    }
}

/// After a client subscribed to a channel, a PUBLISH on it owes the message
/// to every subscriber, the client among them, once each and in subscription
/// order, and answers with the number of subscribers.
pub proof fn ley_suscribir_publicar(
    suscripcion: ComandoVista,
    publicacion: ComandoVista,
    b: EstadoBase,
    cliente: Token,
    canal: Seq<char>,
    mensaje: Seq<char>,
)
    requires
        b.valido(),
        suscripcion.pendientes == seq![canal],
        se_dirige_a(publicacion, canal, mensaje),
        b.visible(canal) is None || b.visible(canal)->0 is Canal,
    ensures
        ({
            let suscripto = efecto_subscribe(suscripcion, cliente, b);
            let publicado = efecto_publish(publicacion, suscripto.base);
            let todos = agregar(suscriptores(b, canal), cliente);
            &&& suscripto.respuesta == Respuesta::Int(1)
            &&& suscriptores(suscripto.base, canal) == todos
            &&& todos.contains(cliente)
            &&& publicado.respuesta == Respuesta::Int(todos.len())
            &&& publicado.base.envios == suscripto.base.envios + envios_de(todos, mensaje)
            &&& envios_de(todos, mensaje).len() == todos.len()
            &&& forall|i: int|
                0 <= i < todos.len() ==> (#[trigger] envios_de(todos, mensaje)[i]) == (
                    todos[i],
                    mensaje,
                )
        }),
{
    let todos = agregar(suscriptores(b, canal), cliente);
    let c1 = suscripcion.tras_parametro();
    let b1 = b.tras_obtener(canal);
    lema_tras_obtener(b, canal, canal);
    let b2 = b1.tras_guardar(canal, permanente(Dato::Canal(todos)));
    lema_tras_guardar(b1, canal, permanente(Dato::Canal(todos)), canal);
    assert(c1.pendientes =~= Seq::<Seq<char>>::empty());
    reveal_with_fuel(crate::comando_pubsub_handler::suscribir_todos, 3);
    assert(efecto_subscribe(suscripcion, cliente, b).base == b2);
    lema_tras_obtener(b2, canal, canal);
    crate::secuencias::lema_agregar_contiene(suscriptores(b, canal), cliente, cliente);
}

/// Unsubscribing takes the client off the channel, once: the channel is one
/// subscriber shorter if the client was subscribed and as long as before if
/// not, and nobody else leaves. Unsubscribing again changes nothing.
pub proof fn ley_desuscribir(
    orden: ComandoVista,
    otra_vez: ComandoVista,
    b: EstadoBase,
    cliente: Token,
    canal: Seq<char>,
)
    requires
        b.valido(),
        orden.pendientes == seq![canal],
        otra_vez.pendientes == seq![canal],
        b.visible(canal) is Some,
        b.visible(canal)->0 is Canal,
        sin_repetidos(suscriptores(b, canal)),
    ensures
        ({
            let antes = suscriptores(b, canal);
            let primero = efecto_unsubscribe(orden, cliente, b).base;
            let segundo = efecto_unsubscribe(otra_vez, cliente, primero).base;
            &&& suscriptores(primero, canal) == retirar(antes, cliente)
            &&& !suscriptores(primero, canal).contains(cliente)
            &&& suscriptores(primero, canal).len() == if antes.contains(cliente) {
                antes.len() - 1
            } else {
                antes.len() as int
            }
            &&& forall|t: Token|
                t != cliente ==> (suscriptores(primero, canal).contains(t) <==> antes.contains(t))
            &&& suscriptores(segundo, canal) == suscriptores(primero, canal)
        }),
{
    let antes = suscriptores(b, canal);
    let quedan = retirar(antes, cliente);
    lema_retirar(antes, cliente);
    reveal_with_fuel(crate::comando_pubsub_handler::desuscribir_todos, 3);
    assert(orden.tras_parametro().pendientes =~= Seq::<Seq<char>>::empty());
    assert(otra_vez.tras_parametro().pendientes =~= Seq::<Seq<char>>::empty());
    let b1 = b.tras_obtener(canal);
    lema_tras_obtener(b, canal, canal);
    let b2 = b1.tras_guardar(canal, permanente(Dato::Canal(quedan)));
    lema_tras_guardar(b1, canal, permanente(Dato::Canal(quedan)), canal);
    assert(efecto_unsubscribe(orden, cliente, b).base == b2);
    lema_primera_contiene(quedan, cliente);
    assert(retirar(quedan, cliente) == quedan);
    let b3 = b2.tras_obtener(canal);
    lema_tras_obtener(b2, canal, canal);
    lema_tras_guardar(b3, canal, permanente(Dato::Canal(quedan)), canal);
}

/// No text of `l` holds `:`.
pub open spec fn sin_dos_puntos(l: Seq<Seq<char>>) -> bool {
    forall|i: int| 0 <= i < l.len() ==> sin_separador(#[trigger] l[i], ':')
}

/// The content comes back from its line as it is: none of its texts holds
/// `:`, and a list or set that does not expire does not end as the pair that
/// tells a lifetime does.
pub open spec fn dato_restaurable(d: Dato, expira: bool) -> bool {
    match d {
        Dato::Texto(v) => sin_separador(v, ':'),
        Dato::Lista(l) => sin_dos_puntos(l) && (expira || !carga_expirable(l)),
        Dato::Conjunto(c) => sin_dos_puntos(c) && sin_repetidos(c) && (expira || !carga_expirable(
            c,
        )),
        Dato::Canal(_) => true,
    }
}

/// The row comes back from its line as it is.
pub open spec fn fila_restaurable(e: (Seq<char>, ValorVista), ahora: u64) -> bool {
    match e.1.visible(ahora) {
        Some(d) => sin_separador(e.0, ':') && dato_restaurable(d, e.1.plazo is Some),
        None => true,
    }
}

/// What is left of a row after it was written at `ahora` and read at
/// `despues`: nothing of a channel or an expired value; of any other, the
/// key and the content, to live from `despues` for the seconds that were
/// left at `ahora`.
pub open spec fn fila_restaurada(e: (Seq<char>, ValorVista), ahora: u64, despues: u64) -> Option<
    (Seq<char>, ValorVista),
> {
    match e.1.visible(ahora) {
        None => None,
        Some(Dato::Canal(_)) => None,
        Some(d) => Some(
            (
                e.0,
                ValorVista {
                    dato: d,
                    plazo: match e.1.tiempo(ahora) {
                        Some(n) => Some(Plazo { desde: despues, segundos: n }),
                        None => None,
                    },
                },
            ),
        ),
    }
}

/// What is left of a table after it was written at `ahora` and read at
/// `despues`.
pub open spec fn filas_restauradas(f: Filas, ahora: u64, despues: u64) -> Filas
    decreases f.len(),
{
    if f.len() == 0 {
        f
    } else {
        let antes = filas_restauradas(f.drop_last(), ahora, despues);
        match fila_restaurada(f.last(), ahora, despues) {
            Some(e) => antes.push(e),
            None => antes,
        }
    }
}

proof fn lema_digitos_sin_dos_puntos(n: nat)
    ensures
        sin_separador(decimal_nat(n), ':'),
{
    lema_decimal_nat(n);
    let s = decimal_nat(n);
    assert forall|i: int| 0 <= i < s.len() implies s[i] != ':' by {
        assert(es_digito(s[i]));
    }
}

proof fn lema_campos(clave: Seq<char>, dato: Dato, tiempo: Option<u64>)
    requires
        sin_separador(clave, ':'),
        dato_restaurable(dato, tiempo is Some),
        !(dato is Canal),
    ensures
        campos(clave, Some(dato), tiempo).len() >= 2,
        partir(linea(clave, Some(dato), tiempo), ':') == campos(clave, Some(dato), tiempo),
        linea(clave, Some(dato), tiempo).len() > 0,
{
    reveal_strlit("STRING");
    reveal_strlit("LIST");
    reveal_strlit("SET");
    reveal_strlit("EX");
    let c = campos(clave, Some(dato), tiempo);
    let p = campos_de_plazo(tiempo);
    match tiempo {
        Some(n) => {
            lema_digitos_sin_dos_puntos(n as nat);
        },
        None => {},
    }
    assert(sin_dos_puntos(p)) by {
        assert forall|i: int| 0 <= i < p.len() implies sin_separador(#[trigger] p[i], ':') by {
            if i == 0 {
                assert(p[0] == "EX"@);
            }
        }
    }
    assert forall|i: int| 0 <= i < c.len() implies sin_separador(#[trigger] c[i], ':') by {
        match dato {
            Dato::Texto(v) => {
                if i >= 3 {
                    assert(c[i] == p[i - 3]);
                }
            },
            Dato::Lista(l) => {
                if i >= 2 + l.len() {
                    assert(c[i] == p[i - 2 - l.len()]);
                } else if i >= 2 {
                    assert(c[i] == l[i - 2]);
                }
            },
            Dato::Conjunto(l) => {
                if i >= 2 + l.len() {
                    assert(c[i] == p[i - 2 - l.len()]);
                } else if i >= 2 {
                    assert(c[i] == l[i - 2]);
                }
            },
            Dato::Canal(_) => {},
        }
    }
    lema_partir_unir(c, ':');
    if linea(clave, Some(dato), tiempo).len() == 0 {
        assert(linea(clave, Some(dato), tiempo) =~= Seq::<char>::empty());
        assert(partir(Seq::<char>::empty(), ':').len() == 1);
    }
}

proof fn lema_plazo(carga: Seq<Seq<char>>, elementos: Seq<Seq<char>>, tiempo: Option<u64>, despues: u64)
    requires
        carga == elementos + campos_de_plazo(tiempo),
        tiempo is Some || !carga_expirable(elementos),
    ensures
        elementos_de(carga) == elementos,
        plazo_de(carga, despues) == match tiempo {
            Some(n) => Some(Plazo { desde: despues, segundos: n }),
            None => None,
        },
{
    match tiempo {
        Some(n) => {
            lema_u64_de_decimal(n);
            assert(carga[carga.len() - 2] == "EX"@);
            assert(carga.last() == decimal_nat(n as nat));
            assert(carga.subrange(0, carga.len() - 2) =~= elementos);
        },
        None => {
            assert(carga =~= elementos);
        },
    }
}

/// A line that was written for a row reads back as what is left of the row.
pub proof fn ley_linea(e: (Seq<char>, ValorVista), ahora: u64, despues: u64)
    requires
        fila_restaurable(e, ahora),
    ensures
        entrada_de(linea(e.0, e.1.visible(ahora), e.1.tiempo(ahora)), despues) == fila_restaurada(
            e,
            ahora,
            despues,
        ),
{
    reveal_strlit("STRING");
    reveal_strlit("LIST");
    reveal_strlit("SET");
    let tiempo = e.1.tiempo(ahora);
    match e.1.visible(ahora) {
        None => {
            assert(linea(e.0, None, tiempo) =~= Seq::<char>::empty());
        },
        Some(Dato::Canal(s)) => {
            assert(linea(e.0, Some(Dato::Canal(s)), tiempo) =~= Seq::<char>::empty());
        },
        Some(d) => {
            lema_campos(e.0, d, tiempo);
            let c = campos(e.0, Some(d), tiempo);
            let carga = c.subrange(2, c.len() as int);
            match d {
                Dato::Texto(v) => {
                    assert(carga =~= seq![v] + campos_de_plazo(tiempo));
                    lema_plazo(carga, seq![v], tiempo, despues);
                    assert(carga[0] == v);
                },
                Dato::Lista(l) => {
                    assert(carga =~= l + campos_de_plazo(tiempo));
                    lema_plazo(carga, l, tiempo, despues);
                    assert(c[0] == "LIST"@);
                    assert("LIST"@.len() != "STRING"@.len());
                },
                Dato::Conjunto(l) => {
                    assert(carga =~= l + campos_de_plazo(tiempo));
                    lema_plazo(carga, l, tiempo, despues);
                    crate::secuencias::lema_sin_duplicados(l);
                    assert(c[0] == "SET"@);
                    assert("SET"@.len() != "STRING"@.len());
                    assert("SET"@.len() != "LIST"@.len());
                },
                Dato::Canal(_) => {},
            }
        },
    }
}

proof fn lema_claves_restauradas(f: Filas, ahora: u64, despues: u64, clave: Seq<char>)
    requires
        forall|i: int| 0 <= i < f.len() ==> (#[trigger] f[i]).0 != clave,
    ensures
        buscar(filas_restauradas(f, ahora, despues), clave) is None,
        forall|j: int|
            0 <= j < filas_restauradas(f, ahora, despues).len() ==> (#[trigger] filas_restauradas(
                f,
                ahora,
                despues,
            )[j]).0 != clave,
    decreases f.len(),
{
    let r = filas_restauradas(f, ahora, despues);
    if f.len() > 0 {
        let g = f.drop_last();
        assert forall|i: int| 0 <= i < g.len() implies (#[trigger] g[i]).0 != clave by {
            assert(g[i] == f[i]);
        }
        lema_claves_restauradas(g, ahora, despues, clave);
        assert(f.last() == f[f.len() - 1]);
    }
    crate::secuencias::lema_primera_es(claves(r), clave, 0, r.len() as int);
}

/// Reading back the snapshot of a table gives what is left of the table: its
/// keys in their order with their contents, every value that expires living
/// on for the seconds that it had left; channels and expired values are left
/// out. This holds of the tables in which no key and no text holds `:`, and
/// no list or set without lifetime has `EX` as its last element but one.
pub proof fn ley_restaurar(f: Filas, ahora: u64, despues: u64)
    requires
        claves_unicas(f),
        forall|i: int| 0 <= i < f.len() ==> fila_restaurable(#[trigger] f[i], ahora),
    ensures
        tabla_de(lineas(f, ahora), despues) == filas_restauradas(f, ahora, despues),
    decreases f.len(),
{
    let ls = lineas(f, ahora);
    if f.len() == 0 {
        assert(ls =~= Seq::<Seq<char>>::empty());
    } else {
        let g = f.drop_last();
        let ultima = f.last();
        assert(ls.drop_last() =~= lineas(g, ahora));
        assert(ls.last() == linea(ultima.0, ultima.1.visible(ahora), ultima.1.tiempo(ahora)));
        assert forall|i: int| 0 <= i < g.len() implies fila_restaurable(#[trigger] g[i], ahora) by {
            assert(g[i] == f[i]);
        }
        assert(claves_unicas(g)) by {
            assert forall|i: int, j: int| 0 <= i < j < g.len() implies claves(g)[i] != claves(
                g,
            )[j] by {
                assert(claves(g)[i] == claves(f)[i]);
                assert(claves(g)[j] == claves(f)[j]);
            }
        }
        ley_restaurar(g, ahora, despues);
        assert(fila_restaurable(f[f.len() - 1], ahora));
        ley_linea(ultima, ahora, despues);
        assert forall|i: int| 0 <= i < g.len() implies (#[trigger] g[i]).0 != ultima.0 by {
            assert(claves(f)[i] == g[i].0);
            assert(claves(f)[f.len() - 1] == ultima.0);
        }
        lema_claves_restauradas(g, ahora, despues, ultima.0);
    }
}

proof fn lema_suscribir_valido(c: ComandoVista, cliente: Token, b: EstadoBase, alguno: bool)
    requires
        b.valido(),
    ensures
        suscribir_todos(c, cliente, b, alguno).base.valido(),
    decreases c.pendientes.len(),
{
    match c.parametro_disponible() {
        Some(k) => {
            let c1 = c.tras_parametro();
            let b1 = b.tras_obtener(k);
            lema_tras_obtener(b, k, k);
            match b.visible(k) {
                Some(Dato::Canal(s)) => {
                    let v = permanente(Dato::Canal(agregar(s, cliente)));
                    lema_tras_guardar(b1, k, v, k);
                    lema_suscribir_valido(c1, cliente, b1.tras_guardar(k, v), true);
                },
                Some(_) => {},
                None => {
                    let v = permanente(Dato::Canal(agregar(Seq::<Token>::empty(), cliente)));
                    lema_tras_guardar(b1, k, v, k);
                    lema_suscribir_valido(c1, cliente, b1.tras_guardar(k, v), true);
                },
            }
        },
        None => {},
    }
}

proof fn lema_desuscribir_valido(c: ComandoVista, cliente: Token, b: EstadoBase, alguno: bool)
    requires
        b.valido(),
    ensures
        desuscribir_todos(c, cliente, b, alguno).base.valido(),
    decreases c.pendientes.len(),
{
    match c.parametro_disponible() {
        Some(k) => {
            let c1 = c.tras_parametro();
            let b1 = b.tras_obtener(k);
            lema_tras_obtener(b, k, k);
            match b.visible(k) {
                Some(Dato::Canal(s)) => {
                    let v = permanente(Dato::Canal(retirar(s, cliente)));
                    lema_tras_guardar(b1, k, v, k);
                    lema_desuscribir_valido(c1, cliente, b1.tras_guardar(k, v), true);
                },
                _ => {},
            }
        },
        None => {},
    }
}

proof fn lema_contar_valido(c: ComandoVista, b: EstadoBase, cuentas: Seq<Respuesta>)
    requires
        b.valido(),
    ensures
        contar_todos(c, b, cuentas).base.valido(),
    decreases c.pendientes.len(),
{
    match c.parametro_disponible() {
        Some(k) => {
            lema_tras_obtener(b, k, k);
            match b.visible(k) {
                Some(Dato::Canal(s)) => {
                    lema_contar_valido(
                        c.tras_parametro(),
                        b.tras_obtener(k),
                        cuentas.push(Respuesta::Int(s.len())),
                    );
                },
                _ => {},
            }
        },
        None => {},
    }
}

/// Whatever command runs, of whatever client, the keys of the store stay
/// unique.
pub proof fn ley_claves_unicas(c: ComandoVista, cliente: Token, b: EstadoBase)
    requires
        b.valido(),
    ensures
        efecto_comando(c, cliente, b).base.valido(),
{
    lema_suscribir_valido(c, cliente, b, false);
    lema_desuscribir_valido(c, cliente, b, false);
    match c.clave_disponible() {
        Some(k) => {
            let c1 = c.tras_clave();
            let b1 = b.tras_obtener(k);
            lema_tras_obtener(b, k, k);
            lema_tras_eliminar(b1, k, k);
            lema_contar_valido(c1, b, Seq::<Respuesta>::empty());
            assert forall|v: ValorVista| (#[trigger] b.tras_guardar(k, v)).valido() by {
                lema_tras_guardar(b, k, v, k);
            }
            assert forall|v: ValorVista| (#[trigger] b1.tras_guardar(k, v)).valido() by {
                lema_tras_guardar(b1, k, v, k);
            }
        },
        None => {},
    }
}

/// The store `e` comes from the store `b` by changes of the table that were
/// all announced: the snapshots that waited in `b` still wait, in front; if
/// none was added the table is as it was, and if some were added the last
/// of them is the table as it is.
pub open spec fn anunciado(b: EstadoBase, e: EstadoBase) -> bool {
    &&& b.notificaciones.len() <= e.notificaciones.len()
    &&& e.notificaciones.take(b.notificaciones.len() as int) == b.notificaciones
    &&& if e.notificaciones.len() == b.notificaciones.len() {
        e.filas == b.filas
    } else {
        e.notificaciones.last() == e.filas
    }
}

proof fn lema_anunciado_paso(b: EstadoBase, filas: Filas)
    ensures
        anunciado(b, b),
        anunciado(b, b.con_filas(filas)),
{
    assert(b.notificaciones.take(b.notificaciones.len() as int) =~= b.notificaciones);
    assert(b.con_filas(filas).notificaciones.take(b.notificaciones.len() as int)
        =~= b.notificaciones);
}

proof fn lema_anunciado_seguido(a: EstadoBase, b: EstadoBase, c: EstadoBase)
    requires
        anunciado(a, b),
        anunciado(b, c),
    ensures
        anunciado(a, c),
{
    let n = a.notificaciones.len() as int;
    let m = b.notificaciones.len() as int;
    assert(c.notificaciones.take(n) =~= c.notificaciones.take(m).take(n));
}

proof fn lema_anunciado_operaciones(b: EstadoBase, k: Seq<char>)
    ensures
        anunciado(b, b.tras_obtener(k)),
        anunciado(b, b.tras_eliminar(k)),
        anunciado(b.tras_obtener(k), b.tras_obtener(k).tras_eliminar(k)),
        forall|v: ValorVista| anunciado(b, #[trigger] b.tras_guardar(k, v)),
        forall|v: ValorVista|
            anunciado(b.tras_obtener(k), #[trigger] b.tras_obtener(k).tras_guardar(k, v)),
{
    let b1 = b.tras_obtener(k);
    lema_anunciado_paso(b, crate::tabla::quitar(b.filas, k));
    lema_anunciado_paso(b1, crate::tabla::quitar(b1.filas, k));
    assert forall|v: ValorVista| anunciado(b, #[trigger] b.tras_guardar(k, v)) by {
        lema_anunciado_paso(b, crate::tabla::poner(b.filas, k, v));
    }
    assert forall|v: ValorVista| anunciado(b1, #[trigger] b1.tras_guardar(k, v)) by {
        lema_anunciado_paso(b1, crate::tabla::poner(b1.filas, k, v));
    }
}

proof fn lema_suscribir_anunciado(c: ComandoVista, cliente: Token, b: EstadoBase, alguno: bool)
    ensures
        anunciado(b, suscribir_todos(c, cliente, b, alguno).base),
    decreases c.pendientes.len(),
{
    lema_anunciado_paso(b, b.filas);
    match c.parametro_disponible() {
        Some(k) => {
            let c1 = c.tras_parametro();
            let b1 = b.tras_obtener(k);
            lema_anunciado_operaciones(b, k);
            let v = match b.visible(k) {
                Some(Dato::Canal(s)) => permanente(Dato::Canal(agregar(s, cliente))),
                _ => permanente(Dato::Canal(agregar(Seq::<Token>::empty(), cliente))),
            };
            let b2 = b1.tras_guardar(k, v);
            lema_anunciado_seguido(b, b1, b2);
            lema_suscribir_anunciado(c1, cliente, b2, true);
            lema_anunciado_seguido(b, b2, suscribir_todos(c1, cliente, b2, true).base);
        },
        None => {},
    }
}

proof fn lema_desuscribir_anunciado(c: ComandoVista, cliente: Token, b: EstadoBase, alguno: bool)
    ensures
        anunciado(b, desuscribir_todos(c, cliente, b, alguno).base),
    decreases c.pendientes.len(),
{
    lema_anunciado_paso(b, b.filas);
    match c.parametro_disponible() {
        Some(k) => {
            let c1 = c.tras_parametro();
            let b1 = b.tras_obtener(k);
            lema_anunciado_operaciones(b, k);
            match b.visible(k) {
                Some(Dato::Canal(s)) => {
                    let b2 = b1.tras_guardar(k, permanente(Dato::Canal(retirar(s, cliente))));
                    lema_anunciado_seguido(b, b1, b2);
                    lema_desuscribir_anunciado(c1, cliente, b2, true);
                    lema_anunciado_seguido(b, b2, desuscribir_todos(c1, cliente, b2, true).base);
                },
                _ => {},
            }
        },
        None => {},
    }
}

proof fn lema_contar_anunciado(c: ComandoVista, b: EstadoBase, cuentas: Seq<Respuesta>)
    ensures
        anunciado(b, contar_todos(c, b, cuentas).base),
    decreases c.pendientes.len(),
{
    lema_anunciado_paso(b, b.filas);
    match c.parametro_disponible() {
        Some(k) => {
            let b1 = b.tras_obtener(k);
            lema_anunciado_operaciones(b, k);
            match b.visible(k) {
                Some(Dato::Canal(s)) => {
                    let siguientes = cuentas.push(Respuesta::Int(s.len()));
                    lema_contar_anunciado(c.tras_parametro(), b1, siguientes);
                    lema_anunciado_seguido(
                        b,
                        b1,
                        contar_todos(c.tras_parametro(), b1, siguientes).base,
                    );
                },
                _ => {},
            }
        },
        None => {},
    }
}

/// Whatever command runs, every change that it makes to the table is
/// announced to the observers: a snapshot is added for each change, the
/// last one shows the table as the command leaves it, and a command that
/// adds none leaves the table as it found it.
pub proof fn ley_cambios_anunciados(c: ComandoVista, cliente: Token, b: EstadoBase)
    ensures
        anunciado(b, efecto_comando(c, cliente, b).base),
{
    lema_anunciado_paso(b, b.filas);
    lema_suscribir_anunciado(c, cliente, b, false);
    lema_desuscribir_anunciado(c, cliente, b, false);
    match c.clave_disponible() {
        Some(k) => {
            let b1 = b.tras_obtener(k);
            lema_anunciado_operaciones(b, k);
            lema_contar_anunciado(c.tras_clave(), b, Seq::<Respuesta>::empty());
            lema_anunciado_seguido(b, b1, b1.tras_eliminar(k));
            assert forall|v: ValorVista| anunciado(b, #[trigger] b1.tras_guardar(k, v)) by {
                lema_anunciado_seguido(b, b1, b1.tras_guardar(k, v));
            }
            let publicado = efecto_publish(c, b).base;
            if c.tras_clave().parametro_disponible() is Some {
                assert(anunciado(b1, publicado)) by {
                    assert(publicado.notificaciones == b1.notificaciones);
                    assert(b1.notificaciones.take(b1.notificaciones.len() as int)
                        =~= b1.notificaciones);
                }
                lema_anunciado_seguido(b, b1, publicado);
            }
        },
        None => {},
    }
}

} // verus!
