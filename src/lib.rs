//! Session logic for an interactive text-generation driver over a local
//! inference backend: the transcript that grows turn by turn, the decoding of
//! backend output, run metadata, and the decisions of the generation modes.

pub mod transcript;
pub mod decode;
pub mod metadata;
pub mod dispatch;
pub mod session;
