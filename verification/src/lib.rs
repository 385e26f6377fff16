//! Name resolution and opportunistic-TLS connection establishment for an HTTP
//! client, as verified decision logic.
//!
//! The crate holds what a connector stack decides, not what it does on the
//! network. A caller that owns a resolver, a dialer and a TLS library runs
//! them and hands their outcomes in; every function here is total, takes
//! plain values and says in its contract what comes back.
//!
//! * [`resolver`] describes a DNS resolver by its configuration and turns
//!   the records of a lookup into the address sequence of [`addr`].
//! * [`rustls::connector`] is the opportunistic-TLS connector. One call is
//!   three steps: `call` decides by the scheme whether the target is
//!   refused, dialed for a plain stream or dialed for an encrypted one;
//!   `dialed` takes the dialer's outcome and ends the call or asks for a
//!   handshake; `handshaken` takes the outcome of the handshake.
//! * [`rustls`] and [`native_tls`] give the settings of ready-made
//!   connectors.
//! * [`server_name`] checks server names with `webpki`.

pub mod addr;
pub mod native_tls;
pub mod resolver;
pub mod rustls;
pub mod server_name;
pub mod service;
