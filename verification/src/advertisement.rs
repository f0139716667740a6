//! The advertisement object: one set of shared property cells, one object
//! tree entry implementing the LE-advertisement interface plus the
//! object-manager meta-interface, the register/unregister handshake against
//! the advertising manager, and the manager-initiated `Release` revocation.

use vstd::prelude::*;

use crate::remote::Error;
use crate::remote::RemoteCall;
use crate::remote::advertisement_path;
use crate::remote::advertisement_path_string;
use crate::remote::le_advertisement_iface;
use crate::remote::le_advertising_manager_iface;
use crate::remote::manager_service_name;
use crate::remote::object_manager_iface;
use crate::store::PropertyStore;
use crate::store::StoreModel;
use crate::store::spec_local_name;
use crate::store::spec_service_data;
use crate::store::spec_service_uuids;
use crate::store::data_map_or_empty;
use crate::tree::DispatchError;
use crate::tree::Getter;
use crate::tree::GetterModel;
use crate::tree::Interface;
use crate::tree::ObjectSnapshot;
use crate::tree::ObjectTree;
use crate::tree::PropertyDef;
use crate::values::PropertyValue;
use crate::values::PvModel;
use crate::values::str_eq;

verus! {

/// The reply to an inbound method call served by the advertisement object.
pub enum MethodReply {
    /// `Release` returns no value.
    Empty,
    /// The object-manager enumeration returns the whole tree.
    ManagedObjects(Vec<ObjectSnapshot>),
}

/// The fixed shape the advertisement's tree has from construction on: one
/// object at the advertisement path carrying the LE-advertisement interface
/// (four properties, the `Release` method) and the object-manager
/// meta-interface.
pub open spec fn advertisement_tree_shape(t: ObjectTree) -> bool {
    let reg = t.spec_registry();
    let objs = t.spec_objects();
    &&& reg.len() == 2
    &&& reg[0].name@ == le_advertisement_iface()
    &&& reg[0].properties@.len() == 4
    &&& reg[0].properties@[0].name@ == "Type"@
    &&& reg[0].properties@[0].getter@ == GetterModel::FixedText("peripheral"@)
    &&& reg[0].properties@[1].name@ == "LocalName"@
    &&& reg[0].properties@[1].getter@ == GetterModel::LocalName
    &&& reg[0].properties@[2].name@ == "ServiceUUIDs"@
    &&& reg[0].properties@[2].getter@ == GetterModel::ServiceUuids
    &&& reg[0].properties@[3].name@ == "ServiceData"@
    &&& reg[0].properties@[3].getter@ == GetterModel::ServiceDataMap
    &&& reg[0].methods@.len() == 1
    &&& reg[0].methods@[0]@ == "Release"@
    &&& reg[1].name@ == object_manager_iface()
    &&& reg[1].properties@.len() == 0
    &&& reg[1].methods@.len() == 1
    &&& reg[1].methods@[0]@ == "GetManagedObjects"@
    &&& objs.len() == 1
    &&& objs[0].path@ == advertisement_path()
    &&& objs[0].interfaces@ == seq![0usize, 1usize]
}

/// What one object-manager enumeration of the advertisement's tree returns
/// against store state `s`: the single object, both interfaces, and every
/// property holding its current value (defaults while absent).
pub open spec fn advertisement_snapshot_ok(snaps: Seq<ObjectSnapshot>, s: StoreModel) -> bool {
    &&& snaps.len() == 1
    &&& snaps[0].path@ == advertisement_path()
    &&& snaps[0].interfaces@.len() == 2
    &&& snaps[0].interfaces@[0].name@ == le_advertisement_iface()
    &&& snaps[0].interfaces@[0].properties@.len() == 4
    &&& snaps[0].interfaces@[0].properties@[0].0@ == "Type"@
    &&& snaps[0].interfaces@[0].properties@[0].1@ == PvModel::Text("peripheral"@)
    &&& snaps[0].interfaces@[0].properties@[1].0@ == "LocalName"@
    &&& snaps[0].interfaces@[0].properties@[1].1@ == spec_local_name(s)
    &&& snaps[0].interfaces@[0].properties@[2].0@ == "ServiceUUIDs"@
    &&& snaps[0].interfaces@[0].properties@[2].1@ == spec_service_uuids(s)
    &&& snaps[0].interfaces@[0].properties@[3].0@ == "ServiceData"@
    &&& snaps[0].interfaces@[0].properties@[3].1@ == spec_service_data(s)
    &&& snaps[0].interfaces@[1].name@ == object_manager_iface()
    &&& snaps[0].interfaces@[1].properties@.len() == 0
}

/// A BLE advertisement published to the platform's advertising manager.
pub struct Advertisement {
    adapter: String,
    pub object_path: String,
    tree: ObjectTree,
    store: PropertyStore,
    advertising: bool,
}

impl Advertisement {
    /// The advertisement object's path on the bus.
    pub closed spec fn spec_path(&self) -> Seq<char> {
        self.object_path@
    }

    /// The adapter object the manager calls are addressed to.
    pub closed spec fn spec_adapter(&self) -> Seq<char> {
        self.adapter@
    }

    /// The current state of the shared property cells.
    pub closed spec fn spec_store(&self) -> StoreModel {
        self.store@
    }

    /// Whether the advertisement is currently active.
    pub closed spec fn spec_advertising(&self) -> bool {
        self.advertising
    }

    pub closed spec fn spec_tree(&self) -> ObjectTree {
        self.tree
    }

    pub closed spec fn wf(&self) -> bool {
        &&& self.tree.wf()
        &&& self.store.wf()
        &&& self.object_path@ == advertisement_path()
        &&& advertisement_tree_shape(self.tree)
    }

    /// The parts that never change after construction: paths, adapter, and
    /// the registered tree.
    pub open spec fn same_identity(a: Self, b: Self) -> bool {
        &&& a.spec_path() == b.spec_path()
        &&& a.spec_adapter() == b.spec_adapter()
        &&& a.spec_tree() == b.spec_tree()
    }

    /// Builds the advertisement object: empty property cells, the
    /// LE-advertisement interface with its four property getters and the
    /// `Release` method, the object-manager meta-interface, and one tree
    /// entry at the fixed advertisement path. Not yet advertising.
    pub fn new(adapter: String) -> (r: Self)
        ensures
            r.wf(),
            r.spec_path() == advertisement_path(),
            r.spec_adapter() == adapter@,
            !r.spec_advertising(),
            r.spec_store() == (StoreModel {
                name: Option::None,
                uuids: Option::None,
                service_data: Option::None,
            }),
    {
        let mut tree = ObjectTree::new();

        let mut properties: Vec<PropertyDef> = Vec::new();
        properties.push(
            PropertyDef {
                name: "Type".to_owned(),
                getter: Getter::FixedText("peripheral".to_owned()),
            },
        );
        properties.push(PropertyDef { name: "LocalName".to_owned(), getter: Getter::LocalName });
        properties.push(
            PropertyDef { name: "ServiceUUIDs".to_owned(), getter: Getter::ServiceUuids },
        );
        properties.push(
            PropertyDef { name: "ServiceData".to_owned(), getter: Getter::ServiceDataMap },
        );
        let mut methods: Vec<String> = Vec::new();
        methods.push("Release".to_owned());
        let iface_token = tree.register_interface(
            Interface { name: "org.bluez.LEAdvertisement1".to_owned(), properties, methods },
        );
        let om_token = tree.object_manager();

        let object_path = advertisement_path_string();
        let mut tokens: Vec<usize> = Vec::new();
        tokens.push(iface_token);
        tokens.push(om_token);
        tree.insert(object_path.clone(), tokens);
        proof {
            assert(tree.spec_objects()[0].interfaces@ =~= seq![0usize, 1usize]);
        }

        Advertisement {
            adapter,
            object_path,
            tree,
            store: PropertyStore::new(),
            advertising: false,
        }
    }

    /// Replaces the advertised local name; visible on the next property read.
    pub fn add_name(&mut self, name: String)
        requires
            old(self).wf(),
        ensures
            final(self).wf(),
            Self::same_identity(*final(self), *old(self)),
            final(self).spec_advertising() == old(self).spec_advertising(),
            final(self).spec_store() == (StoreModel {
                name: Option::Some(name@),
                ..old(self).spec_store()
            }),
    {
        self.store.set_name(name);
    }

    /// Replaces the advertised service-UUID list; visible on the next
    /// property read.
    pub fn add_uuids(&mut self, uuids: Vec<String>)
        requires
            old(self).wf(),
        ensures
            final(self).wf(),
            Self::same_identity(*final(self), *old(self)),
            final(self).spec_advertising() == old(self).spec_advertising(),
            final(self).spec_store() == (StoreModel {
                uuids: Option::Some(uuids@),
                ..old(self).spec_store()
            }),
    {
        self.store.set_uuids(uuids);
    }

    /// Stores a per-service payload, overwriting any payload the identifier
    /// already holds; visible on the next property read.
    pub fn add_service_data(&mut self, service_uuid: String, data: Vec<u8>)
        requires
            old(self).wf(),
        ensures
            final(self).wf(),
            Self::same_identity(*final(self), *old(self)),
            final(self).spec_advertising() == old(self).spec_advertising(),
            final(self).spec_store() == (StoreModel {
                service_data: Option::Some(
                    data_map_or_empty(old(self).spec_store().service_data).insert(
                        service_uuid@,
                        data@,
                    ),
                ),
                ..old(self).spec_store()
            }),
    {
        self.store.upsert_service_data(service_uuid, data);
    }

    /// The call that starts registration: `RegisterAdvertisement` on the
    /// advertising manager, carrying this object's path and an empty options
    /// mapping. The flag flips only when the reply comes back successful
    /// (`register_complete`).
    pub fn register(&self) -> (c: RemoteCall)
        requires
            self.wf(),
        ensures
            c.destination@ == manager_service_name(),
            c.target_path@ == self.spec_adapter(),
            c.interface@ == le_advertising_manager_iface(),
            c.member@ == "RegisterAdvertisement"@,
            c.argument_path@ == self.spec_path(),
            c.argument_path@ == advertisement_path(),
    {
        RemoteCall {
            destination: "org.bluez".to_owned(),
            target_path: self.adapter.clone(),
            interface: "org.bluez.LEAdvertisingManager1".to_owned(),
            member: "RegisterAdvertisement".to_owned(),
            argument_path: self.object_path.clone(),
        }
    }

    /// Applies the remote reply to `RegisterAdvertisement`: success turns
    /// advertising on; failure leaves the flag as it was and propagates the
    /// provider's error unchanged.
    pub fn register_complete(&mut self, outcome: Result<(), Error>) -> (r: Result<(), Error>)
        requires
            old(self).wf(),
        ensures
            final(self).wf(),
            Self::same_identity(*final(self), *old(self)),
            final(self).spec_store() == old(self).spec_store(),
            r == outcome,
            outcome is Ok ==> final(self).spec_advertising(),
            outcome is Err ==> final(self).spec_advertising() == old(self).spec_advertising(),
    {
        match outcome {
            Ok(u) => {
                self.advertising = true;
                Ok(u)
            },
            Err(e) => Err(e),
        }
    }

    /// The call that starts unregistration: `UnregisterAdvertisement` on the
    /// advertising manager. The flag is cleared here, before the remote call
    /// resolves, so local reads never report a stale active advertisement
    /// even if the remote call later fails.
    pub fn unregister(&mut self) -> (c: RemoteCall)
        requires
            old(self).wf(),
        ensures
            final(self).wf(),
            Self::same_identity(*final(self), *old(self)),
            final(self).spec_store() == old(self).spec_store(),
            !final(self).spec_advertising(),
            c.destination@ == manager_service_name(),
            c.target_path@ == old(self).spec_adapter(),
            c.interface@ == le_advertising_manager_iface(),
            c.member@ == "UnregisterAdvertisement"@,
            c.argument_path@ == old(self).spec_path(),
            c.argument_path@ == advertisement_path(),
    {
        self.advertising = false;
        RemoteCall {
            destination: "org.bluez".to_owned(),
            target_path: self.adapter.clone(),
            interface: "org.bluez.LEAdvertisingManager1".to_owned(),
            member: "UnregisterAdvertisement".to_owned(),
            argument_path: self.object_path.clone(),
        }
    }

    /// Applies the remote reply to `UnregisterAdvertisement`: the error, if
    /// any, is propagated unchanged, and local state already reads "not
    /// advertising" whatever the outcome.
    pub fn unregister_complete(&self, outcome: Result<(), Error>) -> (r: Result<(), Error>)
        ensures
            r == outcome,
    {
        outcome
    }

    /// Whether the advertisement is currently active.
    pub fn is_advertising(&self) -> (r: bool)
        ensures
            r == self.spec_advertising(),
    {
        self.advertising
    }

    /// On the advertisement's tree, a method lookup can hit exactly the
    /// `Release` method of the LE-advertisement interface or the enumeration
    /// method of the object manager, both at the advertisement path.
    proof fn lemma_shape_lookup(t: ObjectTree, path: Seq<char>, iface: Seq<char>, member: Seq<char>)
        requires
            t.wf(),
            advertisement_tree_shape(t),
        ensures
            t.spec_has_object(path) <==> path == advertisement_path(),
            t.spec_has_iface(path, iface) <==> (path == advertisement_path() && (iface
                == le_advertisement_iface() || iface == object_manager_iface())),
            t.spec_has_method(path, iface, member) <==> (path == advertisement_path() && ((iface
                == le_advertisement_iface() && member == "Release"@) || (iface
                == object_manager_iface() && member == "GetManagedObjects"@))),
    {
        let objs = t.spec_objects();
        assert(objs[0].interfaces@[0] == 0usize && objs[0].interfaces@[1] == 1usize);
        if path == advertisement_path() {
            assert(t.spec_has_object(path)) by {
                assert(objs[0].path@ == path);
            }
            if iface == le_advertisement_iface() {
                assert(t.iface_match(0, 0, path, iface));
                if member == "Release"@ {
                    assert(t.method_match(0, 0, 0, path, iface, member));
                }
            }
            if iface == object_manager_iface() {
                assert(t.iface_match(0, 1, path, iface));
                if member == "GetManagedObjects"@ {
                    assert(t.method_match(0, 1, 0, path, iface, member));
                }
            }
        }
        if t.spec_has_object(path) {
            let i = choose|i: int| 0 <= i < objs.len() && (#[trigger] objs[i]).path@ == path;
            assert(path == advertisement_path());
        }
        if t.spec_has_iface(path, iface) {
            let (i, j) = choose|i: int, j: int| t.iface_match(i, j, path, iface);
            assert(i == 0);
            assert(j == 0 || j == 1);
        }
        if t.spec_has_method(path, iface, member) {
            let (i, j, k) = choose|i: int, j: int, k: int| t.method_match(i, j, k, path, iface, member);
            assert(i == 0);
            assert(j == 0 || j == 1);
            assert(k == 0);
        }
    }

    /// Serves an incoming property read against this object's tree,
    /// re-reading the shared store. Every exposed property succeeds with its
    /// current value (or its empty default); anything else is a dispatch
    /// miss.
    pub fn read_property(&self, path: &str, iface: &str, prop: &str) -> (r: Result<
        PropertyValue,
        DispatchError,
    >)
        requires
            self.wf(),
        ensures
            r is Ok <==> (path@ == advertisement_path() && iface@ == le_advertisement_iface() && (
            prop@ == "Type"@ || prop@ == "LocalName"@ || prop@ == "ServiceUUIDs"@ || prop@
                == "ServiceData"@)),
            r matches Result::Ok(v) ==> {
                &&& v.wf()
                &&& prop@ == "Type"@ ==> v@ == PvModel::Text("peripheral"@)
                &&& prop@ == "LocalName"@ ==> v@ == spec_local_name(self.spec_store())
                &&& prop@ == "ServiceUUIDs"@ ==> v@ == spec_service_uuids(self.spec_store())
                &&& prop@ == "ServiceData"@ ==> v@ == spec_service_data(self.spec_store())
            },
            r matches Result::Err(e) ==> {
                &&& (e == DispatchError::NoSuchObject <==> path@ != advertisement_path())
                &&& (e == DispatchError::NoSuchInterface <==> (path@ == advertisement_path()
                    && iface@ != le_advertisement_iface() && iface@ != object_manager_iface()))
            },
    {
        proof {
            Self::lemma_shape_lookup(self.tree, path@, iface@, prop@);
            reveal_strlit("Type");
            reveal_strlit("LocalName");
            reveal_strlit("ServiceUUIDs");
            reveal_strlit("ServiceData");
            assert("Type"@.len() == 4);
            assert("LocalName"@.len() == 9);
            assert("ServiceUUIDs"@.len() == 12);
            assert("ServiceData"@.len() == 11);
        }
        let r = self.tree.get_property(&self.store, path, iface, prop);
        proof {
            let reg = self.tree.spec_registry();
            let objs = self.tree.spec_objects();
            assert(objs[0].interfaces@[0] == 0usize && objs[0].interfaces@[1] == 1usize);
            if let Result::Ok(v) = &r {
                let (i, j, k) = choose|i: int, j: int, k: int|
                    self.tree.prop_match(i, j, k, path@, iface@, prop@) && v@
                        == crate::tree::spec_eval(
                        reg[objs[i].interfaces@[j] as int].properties@[k].getter@,
                        self.store@,
                    );
                assert(i == 0);
                assert(j == 0 || j == 1);
                assert(j == 0);
                assert(k == 0 || k == 1 || k == 2 || k == 3);
                if prop@ == "Type"@ {
                    assert(k == 0);
                } else if prop@ == "LocalName"@ {
                    assert(k == 1);
                } else if prop@ == "ServiceUUIDs"@ {
                    assert(k == 2);
                } else if prop@ == "ServiceData"@ {
                    assert(k == 3);
                }
                assert(v@ == crate::tree::spec_eval(
                    reg[0].properties@[k].getter@,
                    self.store@,
                ));
            }
            if self.tree.spec_has_prop(path@, iface@, prop@) {
                let (i, j, k) = choose|i: int, j: int, k: int|
                    self.tree.prop_match(i, j, k, path@, iface@, prop@);
                assert(i == 0);
                assert(j == 0);
                assert(k == 0 || k == 1 || k == 2 || k == 3);
            }
            if path@ == advertisement_path() && iface@ == le_advertisement_iface() {
                if prop@ == "Type"@ {
                    assert(self.tree.prop_match(0, 0, 0, path@, iface@, prop@));
                } else if prop@ == "LocalName"@ {
                    assert(self.tree.prop_match(0, 0, 1, path@, iface@, prop@));
                } else if prop@ == "ServiceUUIDs"@ {
                    assert(self.tree.prop_match(0, 0, 2, path@, iface@, prop@));
                } else if prop@ == "ServiceData"@ {
                    assert(self.tree.prop_match(0, 0, 3, path@, iface@, prop@));
                }
            }
        }
        r
    }

    /// Serves an incoming method call. `Release` — invoked by the manager,
    /// not by local code — turns advertising off and returns success
    /// immediately; the object-manager enumeration returns the whole tree
    /// with every property's current value. Anything else is a dispatch
    /// miss and leaves the state untouched.
    pub fn dispatch_method(&mut self, path: &str, iface: &str, member: &str) -> (r: Result<
        MethodReply,
        DispatchError,
    >)
        requires
            old(self).wf(),
        ensures
            final(self).wf(),
            Self::same_identity(*final(self), *old(self)),
            final(self).spec_store() == old(self).spec_store(),
            r is Ok <==> (path@ == advertisement_path() && ((iface@ == le_advertisement_iface()
                && member@ == "Release"@) || (iface@ == object_manager_iface() && member@
                == "GetManagedObjects"@))),
            (path@ == advertisement_path() && iface@ == le_advertisement_iface() && member@
                == "Release"@) ==> (r matches Result::Ok(MethodReply::Empty)
                && !final(self).spec_advertising()),
            r matches Result::Ok(MethodReply::ManagedObjects(s)) ==> {
                &&& path@ == advertisement_path() && iface@ == object_manager_iface() && member@
                    == "GetManagedObjects"@
                &&& final(self).spec_advertising() == old(self).spec_advertising()
                &&& advertisement_snapshot_ok(s@, old(self).spec_store())
            },
            (path@ == advertisement_path() && iface@ == object_manager_iface() && member@
                == "GetManagedObjects"@) ==> r matches Result::Ok(MethodReply::ManagedObjects(s)),
            r matches Result::Err(e) ==> {
                &&& final(self).spec_advertising() == old(self).spec_advertising()
                &&& (e == DispatchError::NoSuchObject <==> path@ != advertisement_path())
                &&& (e == DispatchError::NoSuchInterface <==> (path@ == advertisement_path()
                    && iface@ != le_advertisement_iface() && iface@ != object_manager_iface()))
            },
    {
        proof {
            Self::lemma_shape_lookup(self.tree, path@, iface@, member@);
            reveal_strlit("Release");
            reveal_strlit("GetManagedObjects");
            reveal_strlit("org.bluez.LEAdvertisement1");
            reveal_strlit("org.freedesktop.DBus.ObjectManager");
            assert("Release"@.len() == 7);
            assert("GetManagedObjects"@.len() == 17);
            assert("org.bluez.LEAdvertisement1"@.len() == 26);
            assert("org.freedesktop.DBus.ObjectManager"@.len() == 34);
            assert(le_advertisement_iface() != object_manager_iface());
        }
        match self.tree.check_method(path, iface, member) {
            Result::Err(e) => Err(e),
            Result::Ok(_) => {
                if str_eq(iface, "org.bluez.LEAdvertisement1") && str_eq(member, "Release") {
                    self.advertising = false;
                    Ok(MethodReply::Empty)
                } else {
                    let snaps = self.get_managed_objects();
                    Ok(MethodReply::ManagedObjects(snaps))
                }
            },
        }
    }

    /// One object-manager enumeration of this advertisement's tree: the
    /// single object at the advertisement path, both interfaces, and all
    /// four properties with the values they hold right now.
    pub fn get_managed_objects(&self) -> (r: Vec<ObjectSnapshot>)
        requires
            self.wf(),
        ensures
            advertisement_snapshot_ok(r@, self.spec_store()),
    {
        let r = self.tree.managed_objects(&self.store);
        proof {
            let objs = self.tree.spec_objects();
            assert(objs[0].interfaces@[0] == 0usize && objs[0].interfaces@[1] == 1usize);
            assert(self.tree.object_snapshot_ok(self.store@, 0, r@[0]));
            assert(self.tree.iface_snapshot_ok(self.store@, 0, r@[0].interfaces@[0]));
            assert(self.tree.iface_snapshot_ok(self.store@, 1, r@[0].interfaces@[1]));
            assert(r@[0].interfaces@[0].properties@[0].0@ == "Type"@);
            assert(r@[0].interfaces@[0].properties@[1].0@ == "LocalName"@);
            assert(r@[0].interfaces@[0].properties@[2].0@ == "ServiceUUIDs"@);
            assert(r@[0].interfaces@[0].properties@[3].0@ == "ServiceData"@);
        }
        r
    }
}

} // verus!
