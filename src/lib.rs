//! Text signing and verification with a keyed hash (BLAKE3) or an
//! asymmetric signature scheme (Ed25519), and the small command-line
//! helpers around them.

pub mod b64;
pub mod cli;
pub mod crypto;
pub mod gen_pass;
pub mod http;
pub mod jwt;
pub mod strings;
pub mod text;
