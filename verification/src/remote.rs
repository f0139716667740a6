//! Names on the bus, the shape of an outgoing manager call, and the error
//! a failed remote call surfaces.

use vstd::prelude::*;
use vstd::string::StringExecFns;

verus! {

/// Bus name of the platform's Bluetooth management daemon.
pub open spec fn manager_service_name() -> Seq<char> {
    "org.bluez"@
}

/// Base path under which this process exposes its objects.
pub open spec fn path_base() -> Seq<char> {
    "/org/bluez/bluster"@
}

/// Path of the single advertisement object: the base plus the literal first
/// slot suffix. Exactly one advertisement per process is supported.
pub open spec fn advertisement_path() -> Seq<char> {
    "/org/bluez/bluster/advertisement0000"@
}

/// The advertisement path is deterministically derived from the base path.
pub proof fn lemma_advertisement_path_derivation()
    ensures
        advertisement_path() == path_base() + "/advertisement0000"@,
{
    reveal_strlit("/org/bluez/bluster");
    reveal_strlit("/advertisement0000");
    reveal_strlit("/org/bluez/bluster/advertisement0000");
    assert(advertisement_path() =~= path_base() + "/advertisement0000"@);
}

/// Interface of the local advertisement object.
pub open spec fn le_advertisement_iface() -> Seq<char> {
    "org.bluez.LEAdvertisement1"@
}

/// Interface of the remote advertising manager.
pub open spec fn le_advertising_manager_iface() -> Seq<char> {
    "org.bluez.LEAdvertisingManager1"@
}

/// Interface of the remote GATT manager.
pub open spec fn gatt_manager_iface() -> Seq<char> {
    "org.bluez.GattManager1"@
}

/// The meta-interface through which a peer enumerates the whole object tree.
pub open spec fn object_manager_iface() -> Seq<char> {
    "org.freedesktop.DBus.ObjectManager"@
}

/// The base path as an owned string.
pub fn path_base_string() -> (r: String)
    ensures
        r@ == path_base(),
{
    "/org/bluez/bluster".to_owned()
}

/// The advertisement object's path, built from the base and the fixed slot
/// suffix.
pub fn advertisement_path_string() -> (r: String)
    ensures
        r@ == advertisement_path(),
{
    let mut p = path_base_string();
    p.append("/advertisement0000");
    proof {
        lemma_advertisement_path_derivation();
    }
    p
}

/// One asynchronous method call against a remote manager. The options
/// mapping that accompanies a registration is always sent empty, so the call
/// is fully described by its names and paths.
pub struct RemoteCall {
    /// Bus name the call is sent to.
    pub destination: String,
    /// Object the call is addressed to: the adapter.
    pub target_path: String,
    /// Manager interface that owns the method.
    pub interface: String,
    /// Method name.
    pub member: String,
    /// The local object path carried as the call's argument.
    pub argument_path: String,
}

/// A remote manager rejected a call; the provider-supplied message is
/// propagated unchanged.
#[derive(Debug, Clone, PartialEq, Eq)]
pub enum Error {
    Remote(String),
}

impl Error {
    /// The provider-supplied message.
    pub fn message(&self) -> (r: String)
        ensures
            r@ == self->0@,
    {
        match self {
            Error::Remote(m) => m.clone(),
        }
    }
}

} // verus!
