//! The GATT application object: the root under which externally built GATT
//! service sub-objects are inserted, exposing the object-manager
//! meta-interface over all of them, and the register/unregister handshake
//! against the GATT manager. Unlike the advertisement, it keeps no local
//! activity flag.

use vstd::prelude::*;

use crate::remote::RemoteCall;
use crate::remote::gatt_manager_iface;
use crate::remote::manager_service_name;
use crate::remote::object_manager_iface;
use crate::remote::path_base;
use crate::remote::path_base_string;
use crate::tree::ObjectTree;

verus! {

/// A GATT application registered with the platform's GATT manager.
pub struct Application {
    adapter: String,
    pub object_path: String,
}

impl Application {
    /// The application root's path on the bus: the bare base path.
    pub closed spec fn spec_path(&self) -> Seq<char> {
        self.object_path@
    }

    /// The adapter object the manager calls are addressed to.
    pub closed spec fn spec_adapter(&self) -> Seq<char> {
        self.adapter@
    }

    /// Inserts the application's root object at the base path, carrying the
    /// object-manager meta-interface so a peer can enumerate every service
    /// attached beneath it.
    pub fn new(tree: &mut ObjectTree, adapter: String) -> (r: Self)
        requires
            old(tree).wf(),
            !old(tree).spec_has_object(path_base()),
        ensures
            final(tree).wf(),
            r.spec_path() == path_base(),
            r.spec_adapter() == adapter@,
            final(tree).spec_registry().len() == old(tree).spec_registry().len() + 1,
            forall|i: int|
                0 <= i < old(tree).spec_registry().len() ==> final(tree).spec_registry()[i] == old(
                    tree,
                ).spec_registry()[i],
            final(tree).spec_registry().last().name@ == object_manager_iface(),
            final(tree).spec_registry().last().properties@.len() == 0,
            final(tree).spec_objects().len() == old(tree).spec_objects().len() + 1,
            forall|i: int|
                0 <= i < old(tree).spec_objects().len() ==> final(tree).spec_objects()[i] == old(
                    tree,
                ).spec_objects()[i],
            final(tree).spec_objects().last().path@ == path_base(),
            final(tree).spec_objects().last().interfaces@ == seq![
                old(tree).spec_registry().len() as usize,
            ],
    {
        let om = tree.object_manager();
        let path = path_base_string();
        let mut tokens: Vec<usize> = Vec::new();
        tokens.push(om);
        tree.insert(path.clone(), tokens);
        proof {
            assert(tree.spec_objects().last().interfaces@ =~= seq![om]);
        }
        Application { adapter, object_path: path }
    }

    /// The call that registers the application: `RegisterApplication` on the
    /// GATT manager, carrying the root path and an empty options mapping.
    /// The raw reply goes back to the caller; decoding it is the caller's
    /// concern.
    pub fn register(&self) -> (c: RemoteCall)
        ensures
            c.destination@ == manager_service_name(),
            c.target_path@ == self.spec_adapter(),
            c.interface@ == gatt_manager_iface(),
            c.member@ == "RegisterApplication"@,
            c.argument_path@ == self.spec_path(),
    {
        RemoteCall {
            destination: "org.bluez".to_owned(),
            target_path: self.adapter.clone(),
            interface: "org.bluez.GattManager1".to_owned(),
            member: "RegisterApplication".to_owned(),
            argument_path: self.object_path.clone(),
        }
    }

    /// The call that unregisters the application: `UnregisterApplication`
    /// on the GATT manager, carrying the root path. A successful reply
    /// carries nothing.
    pub fn unregister(&self) -> (c: RemoteCall)
        ensures
            c.destination@ == manager_service_name(),
            c.target_path@ == self.spec_adapter(),
            c.interface@ == gatt_manager_iface(),
            c.member@ == "UnregisterApplication"@,
            c.argument_path@ == self.spec_path(),
    {
        RemoteCall {
            destination: "org.bluez".to_owned(),
            target_path: self.adapter.clone(),
            interface: "org.bluez.GattManager1".to_owned(),
            member: "UnregisterApplication".to_owned(),
            argument_path: self.object_path.clone(),
        }
    }
}

} // verus!
