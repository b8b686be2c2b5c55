//! Snapshots: the text format in which the table is written down, how a
//! table is read back from it, and the decisions of the actor that writes.
//!
//! A snapshot is a sequence of lines, one per key:
//!
//! ```text
//! STRING:<key>:<value>[:EX:<seconds>]
//! LIST:<key>:<v1>:<v2>:...[:EX:<seconds>]
//! SET:<key>:<v1>:<v2>:...[:EX:<seconds>]
//! ```
//!
//! Channels and expired values give the empty line. Nothing is escaped: a
//! text that holds `:` does not come back as it was, and neither does a list
//! or set without lifetime whose last element but one is `EX`.
use std::sync::mpsc::Sender;
use vstd::prelude::*;
use vstd::string::*;
use crate::comando::{Dato, TipoRedis};
use crate::conjunto::Conjunto;
use crate::secuencias::sin_duplicados;
use crate::tabla::{poner, Entrada, Filas, Tabla};
use crate::texto::{
    decimal_nat, lema_vista_textos_push, mismo_texto, parsear_u64, partir, partir_texto,
    u64_a_cadena, u64_de, unir, unir_textos, vista_textos,
};
use crate::valor::{segundos_transcurridos, Plazo, Valor, ValorVista};

verus! {

/// The fields that tell the lifetime: `EX` and the seconds that are left.
pub open spec fn campos_de_plazo(tiempo: Option<u64>) -> Seq<Seq<char>> {
    match tiempo {
        Some(n) => seq!["EX"@, decimal_nat(n as nat)],
        None => Seq::<Seq<char>>::empty(),
    }
}

/// The fields of the line of a key: the kind, the key, the payload and the
/// lifetime. A channel, or no value, has no fields.
pub open spec fn campos(clave: Seq<char>, dato: Option<Dato>, tiempo: Option<u64>) -> Seq<
    Seq<char>,
> {
    match dato {
        Some(Dato::Texto(v)) => seq!["STRING"@, clave, v] + campos_de_plazo(tiempo),
        Some(Dato::Lista(l)) => seq!["LIST"@, clave] + l + campos_de_plazo(tiempo),
        Some(Dato::Conjunto(c)) => seq!["SET"@, clave] + c + campos_de_plazo(tiempo),
        _ => Seq::<Seq<char>>::empty(),
    }
}

/// The line of a key: its fields with `:` between them.
pub open spec fn linea(clave: Seq<char>, dato: Option<Dato>, tiempo: Option<u64>) -> Seq<char> {
    unir(campos(clave, dato, tiempo), ':')
}

/// The lines of a table at the clock reading `ahora`, one per row, in order.
pub open spec fn lineas(f: Filas, ahora: u64) -> Seq<Seq<char>> {
    f.map_values(
        |e: (Seq<char>, ValorVista)| linea(e.0, e.1.visible(ahora), e.1.tiempo(ahora)),
    )
}

pub open spec fn vista_dato(valor: Option<&TipoRedis>) -> Option<Dato> {
    match valor {
        Some(t) => Some(t@),
        None => None,
    }
}

fn agregar_textos(campos: &mut Vec<String>, textos: &Vec<String>)
    ensures
        vista_textos(final(campos)@) == vista_textos(old(campos)@) + vista_textos(textos@),
{
    let ghost inicio = vista_textos(campos@);
    let mut i: usize = 0;
    assert(vista_textos(textos@).take(0) =~= Seq::<Seq<char>>::empty());
    assert(inicio + Seq::<Seq<char>>::empty() =~= inicio);
    while i < textos.len()
        invariant
            i <= textos.len(),
            vista_textos(campos@) == inicio + vista_textos(textos@).take(i as int),
        decreases textos.len() - i,
    {
        let t = textos[i].clone();
        proof {
            lema_vista_textos_push(campos@, t);
            assert(inicio + vista_textos(textos@).take(i + 1) =~= (inicio + vista_textos(
                textos@,
            ).take(i as int)).push(t@));
        }
        campos.push(t);
        i += 1;
    }
    assert(vista_textos(textos@).take(i as int) =~= vista_textos(textos@));
}

fn agregar_plazo(campos: &mut Vec<String>, tiempo: Option<u64>)
    ensures
        vista_textos(final(campos)@) == vista_textos(old(campos)@) + campos_de_plazo(tiempo),
{
    let ghost inicio = vista_textos(campos@);
    match tiempo {
        Some(n) => {
            let ex = "EX".to_owned();
            let segundos = u64_a_cadena(n);
            proof {
                lema_vista_textos_push(campos@, ex);
                lema_vista_textos_push(campos@.push(ex), segundos);
                assert(inicio + campos_de_plazo(tiempo) =~= inicio.push(ex@).push(segundos@));
            }
            campos.push(ex);
            campos.push(segundos);
        },
        None => {
            assert(inicio + campos_de_plazo(tiempo) =~= inicio);
        },
    }
}

fn encabezado(tipo: &str, clave: String) -> (campos: Vec<String>)
    ensures
        vista_textos(campos@) == seq![tipo@, clave@],
{
    let mut campos: Vec<String> = Vec::new();
    campos.push(tipo.to_owned());
    campos.push(clave);
    assert(vista_textos(campos@) =~= seq![tipo@, clave@]);
    campos
}

/// The line that writes down `valor` under `clave`, with `time` seconds
/// left to live if it expires. No value, or a channel, gives the empty line.
pub fn guardar_clave_valor(clave: String, valor: Option<&TipoRedis>, time: Option<u64>) -> (r:
    String)
    ensures
        r@ == linea(clave@, vista_dato(valor), time),
{
    let mut campos: Vec<String> = match valor {
        Some(TipoRedis::Str(v)) => {
            let mut campos = encabezado("STRING", clave);
            let texto = v.clone();
            proof {
                lema_vista_textos_push(campos@, texto);
                assert(seq!["STRING"@, clave@].push(v@) =~= seq!["STRING"@, clave@, v@]);
            }
            campos.push(texto);
            campos
        },
        Some(TipoRedis::Lista(lista)) => {
            let mut campos = encabezado("LIST", clave);
            agregar_textos(&mut campos, lista);
            campos
        },
        Some(TipoRedis::Conjunto(set)) => {
            let mut campos = encabezado("SET", clave);
            agregar_textos(&mut campos, set.elementos());
            campos
        },
        _ => {
            return String::new();
        },
    };
    agregar_plazo(&mut campos, time);
    unir_textos(&campos, ':')
}

/// The lines of `tabla` at the clock reading `ahora`.
pub fn lineas_de(tabla: &Tabla, ahora: u64) -> (r: Vec<String>)
    ensures
        vista_textos(r@) == lineas(tabla@, ahora),
{
    let mut r: Vec<String> = Vec::new();
    let n = tabla.len();
    let mut i: usize = 0;
    while i < n
        invariant
            i <= n,
            n == tabla@.len(),
            vista_textos(r@) == lineas(tabla@.take(i as int), ahora),
        decreases n - i,
    {
        let e = tabla.entrada(i);
        let l = guardar_clave_valor(
            e.clave().clone(),
            e.valor().get_en(ahora),
            e.valor().get_tiempo_en(ahora),
        );
        proof {
            lema_vista_textos_push(r@, l);
            assert(lineas(tabla@.take(i + 1), ahora) =~= lineas(tabla@.take(i as int), ahora).push(
                l@,
            ));
        }
        r.push(l);
        i += 1;
    }
    assert(tabla@.take(i as int) =~= tabla@);
    r
}

/// The payload ends in the pair of `soporte` and one more field.
pub open spec fn termina_en_par(carga: Seq<Seq<char>>, soporte: Seq<char>) -> bool {
    carga.len() >= 2 && carga[carga.len() - 2] == soporte
}

/// The payload tells a lifetime: it ends in `EX` and one more field.
pub open spec fn carga_expirable(carga: Seq<Seq<char>>) -> bool {
    termina_en_par(carga, "EX"@)
}

/// The number in the field after `soporte`, where the payload ends in that
/// pair and the field is a number.
pub open spec fn tiempo_en(carga: Seq<Seq<char>>, soporte: Seq<char>) -> Option<u64> {
    if termina_en_par(carga, soporte) {
        u64_de(carga.last())
    } else {
        None
    }
}

/// The payload without the pair that tells the lifetime.
pub open spec fn elementos_de(carga: Seq<Seq<char>>) -> Seq<Seq<char>> {
    if carga_expirable(carga) {
        carga.subrange(0, carga.len() - 2)
    } else {
        carga
    }
}

/// The lifetime that the payload tells, counted from `ahora`; a field after
/// `EX` that is no number counts as 0 seconds.
pub open spec fn plazo_de(carga: Seq<Seq<char>>, ahora: u64) -> Option<Plazo> {
    if carga_expirable(carga) {
        Some(
            Plazo {
                desde: ahora,
                segundos: match tiempo_en(carga, "EX"@) {
                    Some(n) => n,
                    None => 0,
                },
            },
        )
    } else {
        None
    }
}

/// The row that a line of a snapshot stands for, read at the clock reading
/// `ahora`. The first field chooses the kind, the second is the key, the rest
/// is the payload. The empty line, a line of another kind and a line that
/// lacks the key, or the text of a `STRING`, stand for nothing.
pub open spec fn entrada_de(linea: Seq<char>, ahora: u64) -> Option<(Seq<char>, ValorVista)> {
    let t = partir(linea, ':');
    if linea.len() == 0 || t.len() < 2 {
        None
    } else {
        let carga = t.subrange(2, t.len() as int);
        let plazo = plazo_de(carga, ahora);
        if t[0] == "STRING"@ {
            if carga.len() >= 1 {
                Some((t[1], ValorVista { dato: Dato::Texto(carga[0]), plazo }))
            } else {
                None
            }
        } else if t[0] == "LIST"@ {
            Some((t[1], ValorVista { dato: Dato::Lista(elementos_de(carga)), plazo }))
        } else if t[0] == "SET"@ {
            Some(
                (
                    t[1],
                    ValorVista { dato: Dato::Conjunto(sin_duplicados(elementos_de(carga))), plazo },
                ),
            )
        } else {
            None
        }
    }
}

/// The table that the lines of a snapshot stand for: line after line, a
/// later line of a key taking the place of an earlier one.
pub open spec fn tabla_de(ls: Seq<Seq<char>>, ahora: u64) -> Filas
    decreases ls.len(),
{
    if ls.len() == 0 {
        Seq::empty()
    } else {
        let t = tabla_de(ls.drop_last(), ahora);
        match entrada_de(ls.last(), ahora) {
            Some(e) => poner(t, e.0, e.1),
            None => t,
        }
    }
}

/// Whether the payload tells a lifetime.
pub fn es_expirable(parametros: &Vec<String>) -> (r: bool)
    ensures
        r == carga_expirable(vista_textos(parametros@)),
{
    let n = parametros.len();
    n >= 2 && mismo_texto(parametros[n - 2].as_str(), "EX")
}

/// The number that follows `support` at the end of the payload.
pub fn obtener_tiempo_expiracion(parametros: &Vec<String>, support: &str) -> (r: Option<u64>)
    ensures
        r == tiempo_en(vista_textos(parametros@), support@),
{
    let n = parametros.len();
    if n >= 2 && mismo_texto(parametros[n - 2].as_str(), support) {
        parsear_u64(parametros[n - 1].as_str())
    } else {
        None
    }
}

fn copiar_rango(v: &Vec<String>, desde: usize, hasta: usize) -> (r: Vec<String>)
    requires
        desde <= hasta <= v.len(),
    ensures
        vista_textos(r@) == vista_textos(v@).subrange(desde as int, hasta as int),
{
    let mut r: Vec<String> = Vec::new();
    let mut i: usize = desde;
    while i < hasta
        invariant
            desde <= i <= hasta <= v.len(),
            vista_textos(r@) == vista_textos(v@).subrange(desde as int, i as int),
        decreases hasta - i,
    {
        let t = v[i].clone();
        proof {
            lema_vista_textos_push(r@, t);
            assert(vista_textos(v@).subrange(desde as int, i + 1) =~= vista_textos(v@).subrange(
                desde as int,
                i as int,
            ).push(t@));
        }
        r.push(t);
        i += 1;
    }
    r
}

fn envolver(valor: TipoRedis, carga: &Vec<String>, ahora: u64) -> (v: Valor)
    ensures
        v@ == (ValorVista { dato: valor@, plazo: plazo_de(vista_textos(carga@), ahora) }),
{
    if es_expirable(carga) {
        let tiempo = match obtener_tiempo_expiracion(carga, "EX") {
            Some(n) => n,
            None => 0,
        };
        Valor::expirable_desde(valor, tiempo, ahora)
    } else {
        Valor::no_expirable(valor)
    }
}

/// Reads one line of a snapshot at the clock reading `ahora`.
pub fn cargar_linea(linea: &str, ahora: u64) -> (r: Option<Entrada>)
    ensures
        match r {
            Some(e) => entrada_de(linea@, ahora) == Some(e@),
            None => entrada_de(linea@, ahora) is None,
        },
{
    let t = partir_texto(linea, ':');
    if t.len() < 2 {
        return None;
    }
    if mismo_texto(linea, "") {
        proof {
            reveal_strlit("");
        }
        return None;
    }
    proof {
        reveal_strlit("");
        assert(linea@.len() != 0) by {
            if linea@.len() == 0 {
                assert(linea@ =~= ""@);
            }
        }
    }
    let carga = copiar_rango(&t, 2, t.len());
    let elementos = if es_expirable(&carga) {
        copiar_rango(&carga, 0, carga.len() - 2)
    } else {
        copiar_rango(&carga, 0, carga.len())
    };
    assert(vista_textos(elementos@) == elementos_de(vista_textos(carga@))) by {
        let c = vista_textos(carga@);
        assert(c.subrange(0, c.len() as int) =~= c);
    }
    let clave = t[1].clone();
    if mismo_texto(t[0].as_str(), "STRING") {
        if carga.len() >= 1 {
            let valor = envolver(TipoRedis::Str(carga[0].clone()), &carga, ahora);
            Some(Entrada::new(clave, valor))
        } else {
            None
        }
    } else if mismo_texto(t[0].as_str(), "LIST") {
        let valor = envolver(TipoRedis::Lista(elementos), &carga, ahora);
        Some(Entrada::new(clave, valor))
    } else if mismo_texto(t[0].as_str(), "SET") {
        let valor = envolver(TipoRedis::Conjunto(Conjunto::desde_vec(&elementos)), &carga, ahora);
        Some(Entrada::new(clave, valor))
    } else {
        None
    }
}

/// The table that the lines of a snapshot stand for, read at the clock
/// reading `ahora`.
pub fn levantar_tabla(lineas: &Vec<String>, ahora: u64) -> (tabla: Tabla)
    ensures
        tabla@ == tabla_de(vista_textos(lineas@), ahora),
{
    let mut tabla = Tabla::new();
    let mut i: usize = 0;
    let ghost todas = vista_textos(lineas@);
    assert(todas.take(0) =~= Seq::<Seq<char>>::empty());
    while i < lineas.len()
        invariant
            i <= lineas.len(),
            todas == vista_textos(lineas@),
            tabla@ == tabla_de(todas.take(i as int), ahora),
        decreases lineas.len() - i,
    {
        proof {
            assert(todas.take(i + 1).drop_last() =~= todas.take(i as int));
            assert(todas.take(i + 1).last() == lineas@[i as int]@);
        }
        match cargar_linea(lineas[i].as_str(), ahora) {
            Some(e) => {
                let (clave, valor) = e.separar();
                tabla.insertar(clave, valor);
            },
            None => {},
        }
        i += 1;
    }
    assert(todas.take(i as int) =~= todas);
    tabla
}

/// `Sender` of `std::sync::mpsc`, the sending end of a channel between
/// threads. Nothing is known of what is inside.
#[verifier::external_type_specification]
#[verifier::external_body]
#[verifier::reject_recursive_types(T)]
pub struct ExSender<T>(Sender<T>);

/// `Clone` for `Sender` of `std::sync::mpsc`: one more sending end of the
/// same channel. Nothing is claimed of it.
pub assume_specification<T>[ <Sender<T> as Clone>::clone ](canal: &Sender<T>) -> Sender<T>;

/// What the owner of the store can ask of the actor that writes snapshots.
#[derive(Debug)]
pub enum MensajePersistencia {
    /// A snapshot of the table.
    Info(Tabla),
    /// The file in which the snapshots that follow belong.
    ArchivoAPersistir(String),
    /// The actor is to stop.
    Cerrar,
}

/// What the actor is to do after a message.
#[derive(Debug)]
pub enum AccionPersistencia {
    /// Wait for the next message.
    Esperar,
    /// Write these lines to this file, in place of what it holds.
    Escribir { archivo: String, lineas: Vec<String> },
    /// Stop.
    Terminar,
}

/// The content of an `AccionPersistencia`.
pub enum AccionVista {
    Esperar,
    Escribir { archivo: Seq<char>, lineas: Seq<Seq<char>> },
    Terminar,
}

impl View for AccionPersistencia {
    type V = AccionVista;

    open spec fn view(&self) -> AccionVista {
        match self {
            AccionPersistencia::Esperar => AccionVista::Esperar,
            AccionPersistencia::Escribir { archivo, lineas } => AccionVista::Escribir {
                archivo: archivo@,
                lineas: vista_textos(lineas@),
            },
            AccionPersistencia::Terminar => AccionVista::Terminar,
        }
    }
}

/// The content of a `MensajePersistencia`.
pub enum MensajeVista {
    Info(Filas),
    ArchivoAPersistir(Seq<char>),
    Cerrar,
}

impl View for MensajePersistencia {
    type V = MensajeVista;

    open spec fn view(&self) -> MensajeVista {
        match self {
            MensajePersistencia::Info(t) => MensajeVista::Info(t@),
            MensajePersistencia::ArchivoAPersistir(a) => MensajeVista::ArchivoAPersistir(a@),
            MensajePersistencia::Cerrar => MensajeVista::Cerrar,
        }
    }
}

/// The state of the actor as contracts see it.
pub struct EstadoPersistencia {
    /// The file in which snapshots belong.
    pub archivo: Seq<char>,
    /// The seconds that must lie between two writes.
    pub intervalo: u64,
    /// The clock reading of the last write, or of the start.
    pub instante: u64,
}

impl EstadoPersistencia {
    /// At `ahora` the interval since the last write has gone by.
    pub open spec fn vencido(self, ahora: u64) -> bool {
        segundos_transcurridos(self.instante, ahora) >= self.intervalo
    }

    /// What the actor does on `mensaje` at the clock reading `ahora`: a
    /// snapshot is written if the interval has gone by, and dropped if not.
    pub open spec fn accion(self, mensaje: MensajeVista, ahora: u64) -> AccionVista {
        match mensaje {
            MensajeVista::Info(f) => if self.vencido(ahora) {
                AccionVista::Escribir { archivo: self.archivo, lineas: lineas(f, ahora) }
            } else {
                AccionVista::Esperar
            },
            MensajeVista::ArchivoAPersistir(_) => AccionVista::Esperar,
            MensajeVista::Cerrar => AccionVista::Terminar,
        }
    }

    /// The state after `mensaje`: only a change of file changes it.
    pub open spec fn tras(self, mensaje: MensajeVista) -> EstadoPersistencia {
        match mensaje {
            MensajeVista::ArchivoAPersistir(a) => EstadoPersistencia { archivo: a, ..self },
            _ => self,
        }
    }
}

/// The decisions of the actor that writes snapshots. The actor itself, which
/// waits for messages and writes files, runs around it: it hands each message
/// to `persistir`, does what the answer says, and reports a write with
/// `escritura_terminada`.
#[derive(Debug)]
pub struct PersistidorHandler {
    archivo: String,
    intervalo: u64,
    instante: u64,
}

impl View for PersistidorHandler {
    type V = EstadoPersistencia;

    closed spec fn view(&self) -> EstadoPersistencia {
        EstadoPersistencia {
            archivo: self.archivo@,
            intervalo: self.intervalo,
            instante: self.instante,
        }
    }
}

impl PersistidorHandler {
    /// An actor that writes to `archivo`, at most once in `intervalo`
    /// seconds, started at the clock reading `ahora`.
    pub fn new(archivo: String, intervalo: u64, ahora: u64) -> (h: PersistidorHandler)
        ensures
            h@ == (EstadoPersistencia { archivo: archivo@, intervalo, instante: ahora }),
    {
        PersistidorHandler { archivo, intervalo, instante: ahora }
    }

    /// Decides what to do on `mensaje`, received at the clock reading `ahora`.
    pub fn persistir(&mut self, mensaje: MensajePersistencia, ahora: u64) -> (accion:
        AccionPersistencia)
        ensures
            accion@ == old(self)@.accion(mensaje@, ahora),
            final(self)@ == old(self)@.tras(mensaje@),
    {
        match mensaje {
            MensajePersistencia::Info(a_persistir) => {
                let pasados: u64 = if ahora >= self.instante {
                    (ahora - self.instante) / 1000
                } else {
                    0
                };
                if pasados >= self.intervalo {
                    AccionPersistencia::Escribir {
                        archivo: self.archivo.clone(),
                        lineas: lineas_de(&a_persistir, ahora),
                    }
                } else {
                    AccionPersistencia::Esperar
                }
            },
            MensajePersistencia::ArchivoAPersistir(a) => {
                self.archivo = a;
                AccionPersistencia::Esperar
            },
            MensajePersistencia::Cerrar => AccionPersistencia::Terminar,
        }
    }

    /// Takes note of how a write ended, at the clock reading `ahora`. After a
    /// write that succeeded the interval starts anew and the actor goes on;
    /// after one that failed the actor is to stop.
    pub fn escritura_terminada(&mut self, exito: bool, ahora: u64) -> (seguir: bool)
        ensures
            seguir == exito,
            final(self)@ == if exito {
                EstadoPersistencia { instante: ahora, ..old(self)@ }
            } else {
                old(self)@
            },
    {
        if exito {
            self.instante = ahora;
        }
        exito
    }
}

/// `Sender::send` of `std::sync::mpsc`: the message goes into the channel,
/// unless the receiving end is gone. In that case the error of `send` holds
/// the message that was to be sent, and it is handed back as it was. Nothing
/// is claimed of which of the two happens.
#[verifier::external_body]
fn enviar(canal: &Sender<MensajePersistencia>, mensaje: MensajePersistencia) -> (r: Result<
    (),
    MensajePersistencia,
>)
    ensures
        r matches Err(m) ==> m == mensaje,
{
    match canal.send(mensaje) {
        Ok(()) => Ok(()),
        Err(e) => Err(e.0),
    }
}

/// The sending end of the mailbox of the actor: the observer to which the
/// store posts its snapshots.
#[derive(Debug, Clone)]
pub struct Persistidor {
    persistidor: Sender<MensajePersistencia>,
}

impl Persistidor {
    /// The channel that the messages are posted to.
    pub closed spec fn buzon(self) -> Sender<MensajePersistencia> {
        self.persistidor
    }

    /// The mailbox client that posts to `persistidor`.
    pub fn new(persistidor: Sender<MensajePersistencia>) -> (p: Persistidor)
        ensures
            p.buzon() == persistidor,
    {
        Persistidor { persistidor }
    }

    /// Posts a snapshot of the table. If the actor is gone, the message
    /// that could not be posted comes back: the snapshot, as it was.
    pub fn persistir(&self, base_de_datos: Tabla) -> (r: Result<(), MensajePersistencia>)
        ensures
            r matches Err(m) ==> m == MensajePersistencia::Info(base_de_datos),
    {
        enviar(&self.persistidor, MensajePersistencia::Info(base_de_datos))
    }

    /// Asks that the snapshots that follow be written to `ruta_nueva`. If the
    /// actor is gone, the message that could not be posted comes back.
    pub fn cambiar_archivo(&self, ruta_nueva: String) -> (r: Result<(), MensajePersistencia>)
        ensures
            r matches Err(m) ==> m == MensajePersistencia::ArchivoAPersistir(ruta_nueva),
    {
        enviar(&self.persistidor, MensajePersistencia::ArchivoAPersistir(ruta_nueva))
    }

    /// The store has changed: posts the snapshot `bdd`, as `persistir` does.
    pub fn actualizar(&self, bdd: Tabla) -> (r: Result<(), MensajePersistencia>)
        ensures
            r matches Err(m) ==> m == MensajePersistencia::Info(bdd),
    {
        self.persistir(bdd)
    }
}

} // verus!
