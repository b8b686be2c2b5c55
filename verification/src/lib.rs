//! The core of an in-memory key-value server that speaks RESP.
//!
//! * `parser`: the wire format, replies out and requests in.
//! * `comando_info`, `comando`: a parsed command, the values and the replies.
//! * `comando_string_handler`, `comando_pubsub_handler`: what each command
//!   does, and the handlers that do it.
//! * `base_de_datos`, `tabla`, `valor`: the store, its table, and values
//!   that may expire.
//! * `canal`, `conjunto`: channels and sets, rosters without repetition.
//! * `persistencia`: the text format of the snapshots and the decisions of
//!   the actor that writes them.
//! * `cliente_redis`: what is decided about a connected client.
//! * `leyes`: what the commands guarantee together.
//! * `texto`, `patron`, `secuencias`: numerals and text, glob patterns,
//!   sequences.
//!
//! Nothing here reads a socket or a file. Time comes in as a clock reading
//! in milliseconds, and what is to be sent or written goes out as a value.
//! The exceptions are few and marked: `valor::Valor` can read the clock for
//! a caller that has no reading at hand, and `persistencia::Persistidor`
//! posts its messages to a channel between threads.
pub mod base_de_datos;
pub mod canal;
pub mod cliente_redis;
pub mod comando;
pub mod comando_info;
pub mod comando_pubsub_handler;
pub mod comando_string_handler;
pub mod conjunto;
pub mod leyes;
pub mod parser;
pub mod patron;
pub mod persistencia;
pub mod secuencias;
pub mod tabla;
pub mod texto;
pub mod valor;
