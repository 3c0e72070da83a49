//! Identity custody, relay session management and request correlation for
//! the Aethos desktop client.
//!
//! The crate is the part of the client that decides: which identity a
//! profile has and what is sealed under it, which relay is tried next and
//! how long a failed one rests, which reply answers which request. Apart
//! from drawing random bytes it reaches for nothing outside itself: files,
//! sockets, the clock and the environment belong to the caller, who hands
//! in what it read and carries out what comes back.
//!
//! * [`profile`]: profile names and storage locations.
//! * [`identity_store`]: the identity and the sealed session cache.
//! * [`protocol`]: the hello message.
//! * [`endpoint`]: relay addresses and their WebSocket form.
//! * [`session`]: the relay pool, selection and back-off.
//! * [`dispatcher`]: correlation of replies with requests.
//! * [`transport`]: the steps of one connection attempt.
//! * [`diagnostics`]: what is recorded when an attempt has ended.
//! * [`codec`]: the outside primitives, believed rather than proved.
//! * [`text`]: helpers on characters and strings.

pub mod codec;
pub mod diagnostics;
pub mod dispatcher;
pub mod endpoint;
pub mod identity_store;
pub mod profile;
pub mod protocol;
pub mod session;
pub mod text;
pub mod transport;
