//! The ready-made settings of a connector that encrypts with the TLS
//! library of the platform.

use vstd::prelude::*;
use crate::resolver::{hickory_http_connector, new_hickory_http_connector, HickoryHttpConnector};
use crate::service::Features;

verus! {

/// The settings of a platform-TLS connector over a
/// [`HickoryHttpConnector`].
#[derive(Clone, Copy, Debug, PartialEq, Eq)]
pub struct NativeTlsHttpsConnector<C, O> {
    pub http: HickoryHttpConnector<C, O>,
    pub https_only: bool,
}

/// Create a new [`NativeTlsHttpsConnector`]: it dials through the plain
/// connector of this library, which lets every scheme pass, and refuses
/// plain targets itself exactly if `features` say so.
pub fn new_native_tls_https_connector<C, O>(features: Features) -> (connector: NativeTlsHttpsConnector<
    C,
    O,
>)
    ensures
        connector.http == hickory_http_connector::<C, O>(features),
        connector.https_only == features.https_only,
{
    let http_connector = new_hickory_http_connector(features);
    let mut https_connector = NativeTlsHttpsConnector { http: http_connector, https_only: false };
    https_connector.https_only = features.https_only;
    https_connector
}

} // verus!
