//! The local registry of bus-addressable objects: interface descriptors with
//! property getters and method names, path-to-interface attachment, dispatch
//! of incoming property reads, and the object-manager enumeration that
//! re-reads every property's current value at snapshot time.

use vstd::prelude::*;

use crate::store::PropertyStore;
use crate::store::StoreModel;
use crate::store::spec_local_name;
use crate::store::spec_service_data;
use crate::store::spec_service_uuids;
use crate::values::PropertyValue;
use crate::values::PvModel;

verus! {

/// How a property reads its value: a constant, or one of the shared store's
/// cells, re-read on every query.
pub enum Getter {
    FixedText(String),
    LocalName,
    ServiceUuids,
    ServiceDataMap,
}

/// The mathematical shape of a `Getter`.
pub ghost enum GetterModel {
    FixedText(Seq<char>),
    LocalName,
    ServiceUuids,
    ServiceDataMap,
}

impl View for Getter {
    type V = GetterModel;

    open spec fn view(&self) -> GetterModel {
        match self {
            Getter::FixedText(t) => GetterModel::FixedText(t@),
            Getter::LocalName => GetterModel::LocalName,
            Getter::ServiceUuids => GetterModel::ServiceUuids,
            Getter::ServiceDataMap => GetterModel::ServiceDataMap,
        }
    }
}

/// The value a getter produces against a given store state.
pub open spec fn spec_eval(g: GetterModel, s: StoreModel) -> PvModel {
    match g {
        GetterModel::FixedText(t) => PvModel::Text(t),
        GetterModel::LocalName => spec_local_name(s),
        GetterModel::ServiceUuids => spec_service_uuids(s),
        GetterModel::ServiceDataMap => spec_service_data(s),
    }
}

/// Evaluates a getter against the current store state.
pub fn eval_getter(g: &Getter, store: &PropertyStore) -> (r: PropertyValue)
    requires
        store.wf(),
    ensures
        r.wf(),
        r@ == spec_eval(g@, store@),
{
    match g {
        Getter::FixedText(t) => PropertyValue::Text(t.clone()),
        Getter::LocalName => store.read_local_name(),
        Getter::ServiceUuids => store.read_service_uuids(),
        Getter::ServiceDataMap => store.read_service_data(),
    }
}

/// One exposed property: its name and how it reads its value.
pub struct PropertyDef {
    pub name: String,
    pub getter: Getter,
}

/// One interface descriptor: a name, read-only properties, and method names.
pub struct Interface {
    pub name: String,
    pub properties: Vec<PropertyDef>,
    pub methods: Vec<String>,
}

/// One object: a path and the tokens of the interfaces attached there.
pub struct ObjectEntry {
    pub path: String,
    pub interfaces: Vec<usize>,
}

/// The platform-level reply when an incoming call names nothing registered.
#[derive(Clone, Copy, Debug, PartialEq, Eq, Structural)]
pub enum DispatchError {
    NoSuchObject,
    NoSuchInterface,
    NoSuchMember,
}

/// The registry mapping object paths to interface sets, and the sole entry
/// point for dispatching incoming calls against them.
pub struct ObjectTree {
    registry: Vec<Interface>,
    objects: Vec<ObjectEntry>,
}

/// The whole tree as seen by one object-manager enumeration: every path,
/// every attached interface, and every property with its value at snapshot
/// time.
pub struct InterfaceSnapshot {
    pub name: String,
    pub properties: Vec<(String, PropertyValue)>,
}

pub struct ObjectSnapshot {
    pub path: String,
    pub interfaces: Vec<InterfaceSnapshot>,
}

impl ObjectTree {
    pub closed spec fn spec_registry(&self) -> Seq<Interface> {
        self.registry@
    }

    pub closed spec fn spec_objects(&self) -> Seq<ObjectEntry> {
        self.objects@
    }

    /// Every attached token names a registered interface, and no two objects
    /// share a path.
    pub open spec fn wf(&self) -> bool {
        &&& forall|i: int, j: int|
            0 <= i < self.spec_objects().len() && 0 <= j
                < self.spec_objects()[i].interfaces@.len() ==> (#[trigger] self.spec_objects()[i].interfaces@[j] as int)
                < self.spec_registry().len()
        &&& forall|a: int, b: int|
            0 <= a < b < self.spec_objects().len() ==> (#[trigger] self.spec_objects()[a].path@)
                != (#[trigger] self.spec_objects()[b].path@)
    }

    pub open spec fn spec_has_object(&self, path: Seq<char>) -> bool {
        exists|i: int|
            0 <= i < self.spec_objects().len() && (#[trigger] self.spec_objects()[i]).path@ == path
    }

    /// Indices of a full (object, interface, property) match.
    pub open spec fn prop_match(
        &self,
        i: int,
        j: int,
        k: int,
        path: Seq<char>,
        iface: Seq<char>,
        prop: Seq<char>,
    ) -> bool {
        let objs = self.spec_objects();
        let reg = self.spec_registry();
        &&& 0 <= i < objs.len() && objs[i].path@ == path
        &&& 0 <= j < objs[i].interfaces@.len()
        &&& (objs[i].interfaces@[j] as int) < reg.len()
        &&& reg[objs[i].interfaces@[j] as int].name@ == iface
        &&& 0 <= k < reg[objs[i].interfaces@[j] as int].properties@.len()
        &&& reg[objs[i].interfaces@[j] as int].properties@[k].name@ == prop
    }

    /// Indices of a full (object, interface, method) match.
    pub open spec fn method_match(
        &self,
        i: int,
        j: int,
        k: int,
        path: Seq<char>,
        iface: Seq<char>,
        member: Seq<char>,
    ) -> bool {
        let objs = self.spec_objects();
        let reg = self.spec_registry();
        &&& 0 <= i < objs.len() && objs[i].path@ == path
        &&& 0 <= j < objs[i].interfaces@.len()
        &&& (objs[i].interfaces@[j] as int) < reg.len()
        &&& reg[objs[i].interfaces@[j] as int].name@ == iface
        &&& 0 <= k < reg[objs[i].interfaces@[j] as int].methods@.len()
        &&& reg[objs[i].interfaces@[j] as int].methods@[k]@ == member
    }

    /// Indices of an (object, interface) match.
    pub open spec fn iface_match(&self, i: int, j: int, path: Seq<char>, iface: Seq<char>) -> bool {
        let objs = self.spec_objects();
        let reg = self.spec_registry();
        &&& 0 <= i < objs.len() && objs[i].path@ == path
        &&& 0 <= j < objs[i].interfaces@.len()
        &&& (objs[i].interfaces@[j] as int) < reg.len()
        &&& reg[objs[i].interfaces@[j] as int].name@ == iface
    }

    pub open spec fn spec_has_iface(&self, path: Seq<char>, iface: Seq<char>) -> bool {
        exists|i: int, j: int| self.iface_match(i, j, path, iface)
    }

    pub open spec fn spec_has_prop(&self, path: Seq<char>, iface: Seq<char>, prop: Seq<char>) -> bool {
        exists|i: int, j: int, k: int| self.prop_match(i, j, k, path, iface, prop)
    }

    pub open spec fn spec_has_method(
        &self,
        path: Seq<char>,
        iface: Seq<char>,
        member: Seq<char>,
    ) -> bool {
        exists|i: int, j: int, k: int| self.method_match(i, j, k, path, iface, member)
    }

    /// An empty tree: nothing registered, nothing attached.
    pub fn new() -> (r: Self)
        ensures
            r.wf(),
            r.spec_registry().len() == 0,
            r.spec_objects().len() == 0,
    {
        ObjectTree { registry: Vec::new(), objects: Vec::new() }
    }

    /// Declares an interface and returns its opaque token.
    pub fn register_interface(&mut self, iface: Interface) -> (token: usize)
        requires
            old(self).wf(),
        ensures
            final(self).wf(),
            token == old(self).spec_registry().len(),
            final(self).spec_registry() == old(self).spec_registry().push(iface),
            final(self).spec_objects() == old(self).spec_objects(),
    {
        let token = self.registry.len();
        self.registry.push(iface);
        proof {
            assert forall|i: int, j: int|
                0 <= i < self.spec_objects().len() && 0 <= j
                    < self.spec_objects()[i].interfaces@.len() implies (#[trigger] self.spec_objects()[i].interfaces@[j] as int)
                < self.spec_registry().len() by {
                assert((old(self).spec_objects()[i].interfaces@[j] as int) < old(
                    self,
                ).spec_registry().len());
            }
        }
        token
    }

    /// Declares the object-manager meta-interface and returns its token. It
    /// carries no properties; its one method answers the enumeration call.
    pub fn object_manager(&mut self) -> (token: usize)
        requires
            old(self).wf(),
        ensures
            final(self).wf(),
            token == old(self).spec_registry().len(),
            final(self).spec_objects() == old(self).spec_objects(),
            final(self).spec_registry().len() == old(self).spec_registry().len() + 1,
            forall|i: int|
                0 <= i < old(self).spec_registry().len() ==> final(self).spec_registry()[i] == old(
                    self,
                ).spec_registry()[i],
            final(self).spec_registry()[token as int].name@ == crate::remote::object_manager_iface(),
            final(self).spec_registry()[token as int].properties@.len() == 0,
            final(self).spec_registry()[token as int].methods@.len() == 1,
            final(self).spec_registry()[token as int].methods@[0]@ == "GetManagedObjects"@,
    {
        let mut methods: Vec<String> = Vec::new();
        methods.push("GetManagedObjects".to_owned());
        let iface = Interface {
            name: "org.freedesktop.DBus.ObjectManager".to_owned(),
            properties: Vec::new(),
            methods,
        };
        self.register_interface(iface)
    }

    /// Attaches the given interfaces at `path`.
    pub fn insert(&mut self, path: String, tokens: Vec<usize>)
        requires
            old(self).wf(),
            !old(self).spec_has_object(path@),
            forall|j: int|
                0 <= j < tokens@.len() ==> (#[trigger] tokens@[j] as int) < old(
                    self,
                ).spec_registry().len(),
        ensures
            final(self).wf(),
            final(self).spec_registry() == old(self).spec_registry(),
            final(self).spec_objects().len() == old(self).spec_objects().len() + 1,
            forall|i: int|
                0 <= i < old(self).spec_objects().len() ==> final(self).spec_objects()[i] == old(
                    self,
                ).spec_objects()[i],
            final(self).spec_objects().last().path@ == path@,
            final(self).spec_objects().last().interfaces@ == tokens@,
    {
        self.objects.push(ObjectEntry { path, interfaces: tokens });
    }

    /// Whether some object is registered at `path`.
    pub fn contains_object(&self, path: &str) -> (r: bool)
        ensures
            r == self.spec_has_object(path@),
    {
        let nobj = self.objects.len();
        let mut oi: usize = 0;
        while oi < nobj
            invariant
                oi <= nobj,
                nobj == self.spec_objects().len(),
                forall|t: int| 0 <= t < oi ==> (#[trigger] self.spec_objects()[t]).path@ != path@,
            decreases nobj - oi,
        {
            if crate::values::str_eq(self.objects[oi].path.as_str(), path) {
                return true;
            }
            oi += 1;
        }
        false
    }

    /// Answers an incoming property read scoped to one object and interface,
    /// re-reading the shared store; a miss surfaces the platform-level
    /// "no such object/interface/member" error.
    pub fn get_property(
        &self,
        store: &PropertyStore,
        path: &str,
        iface: &str,
        prop: &str,
    ) -> (r: Result<PropertyValue, DispatchError>)
        requires
            self.wf(),
            store.wf(),
        ensures
            r is Ok <==> self.spec_has_prop(path@, iface@, prop@),
            match r {
                Result::Ok(v) => v.wf() && exists|i: int, j: int, k: int|
                    self.prop_match(i, j, k, path@, iface@, prop@) && v@ == spec_eval(
                        self.spec_registry()[self.spec_objects()[i].interfaces@[j] as int].properties@[k].getter@,
                        store@,
                    ),
                Result::Err(e) => {
                    &&& (e == DispatchError::NoSuchObject <==> !self.spec_has_object(path@))
                    &&& (e == DispatchError::NoSuchInterface <==> self.spec_has_object(path@)
                        && !self.spec_has_iface(path@, iface@))
                    &&& (e == DispatchError::NoSuchMember <==> self.spec_has_iface(path@, iface@))
                },
            },
    {
        let nobj = self.objects.len();
        let mut oi: usize = 0;
        let mut obj_hit: Option<usize> = None;
        while oi < nobj
            invariant
                oi <= nobj,
                nobj == self.spec_objects().len(),
                match obj_hit {
                    Option::None => forall|t: int|
                        0 <= t < oi ==> (#[trigger] self.spec_objects()[t]).path@ != path@,
                    Option::Some(u) => u < nobj && self.spec_objects()[u as int].path@ == path@,
                },
            decreases nobj - oi,
        {
            if crate::values::str_eq(self.objects[oi].path.as_str(), path) {
                obj_hit = Some(oi);
            }
            oi += 1;
        }
        let obj = match obj_hit {
            Option::Some(u) => u,
            Option::None => {
                proof {
                    assert(!self.spec_has_object(path@));
                    assert(!self.spec_has_iface(path@, iface@)) by {
                        if self.spec_has_iface(path@, iface@) {
                            let (i, j) = choose|i: int, j: int|
                                self.iface_match(i, j, path@, iface@);
                            assert(self.spec_objects()[i].path@ == path@);
                        }
                    }
                }
                return Err(DispatchError::NoSuchObject);
            },
        };
        let ntok = self.objects[obj].interfaces.len();
        let mut j: usize = 0;
        let mut saw_iface: bool = false;
        while j < ntok
            invariant
                self.wf(),
                store.wf(),
                j <= ntok,
                obj < self.spec_objects().len(),
                self.spec_objects()[obj as int].path@ == path@,
                ntok == self.spec_objects()[obj as int].interfaces@.len(),
                saw_iface <==> exists|t: int|
                    0 <= t < j && self.iface_match(obj as int, t, path@, iface@),
                forall|t: int, k: int|
                    0 <= t < j ==> !self.prop_match(obj as int, t, k, path@, iface@, prop@),
            decreases ntok - j,
        {
            let token = self.objects[obj].interfaces[j];
            if crate::values::str_eq(self.registry[token].name.as_str(), iface) {
                saw_iface = true;
                proof {
                    assert(self.iface_match(obj as int, j as int, path@, iface@));
                }
                let np = self.registry[token].properties.len();
                let mut k: usize = 0;
                while k < np
                    invariant
                        self.wf(),
                        store.wf(),
                        k <= np,
                        obj < self.spec_objects().len(),
                        self.spec_objects()[obj as int].path@ == path@,
                        j < self.spec_objects()[obj as int].interfaces@.len(),
                        token == self.spec_objects()[obj as int].interfaces@[j as int],
                        (token as int) < self.spec_registry().len(),
                        self.spec_registry()[token as int].name@ == iface@,
                        np == self.spec_registry()[token as int].properties@.len(),
                        forall|t: int|
                            0 <= t < k ==> (#[trigger] self.spec_registry()[token as int].properties@[t]).name@
                                != prop@,
                    decreases np - k,
                {
                    if crate::values::str_eq(self.registry[token].properties[k].name.as_str(), prop)
                    {
                        let v = eval_getter(&self.registry[token].properties[k].getter, store);
                        proof {
                            assert(self.prop_match(
                                obj as int,
                                j as int,
                                k as int,
                                path@,
                                iface@,
                                prop@,
                            ));
                        }
                        return Ok(v);
                    }
                    k += 1;
                }
            }
            proof {
                assert forall|k: int| !self.prop_match(obj as int, j as int, k, path@, iface@, prop@)
                    by {}
            }
            j += 1;
        }
        proof {
            assert(self.spec_has_object(path@)) by {
                assert(self.spec_objects()[obj as int].path@ == path@);
            }
            assert(!self.spec_has_prop(path@, iface@, prop@)) by {
                if self.spec_has_prop(path@, iface@, prop@) {
                    let (i, j2, k) = choose|i: int, j2: int, k: int|
                        self.prop_match(i, j2, k, path@, iface@, prop@);
                    assert(i == obj as int) by {
                        if i != obj as int {
                            assert(self.spec_objects()[i].path@ == self.spec_objects()[obj as int].path@);
                        }
                    }
                }
            }
            if !saw_iface {
                assert(!self.spec_has_iface(path@, iface@)) by {
                    if self.spec_has_iface(path@, iface@) {
                        let (i, j2) = choose|i: int, j2: int| self.iface_match(i, j2, path@, iface@);
                        assert(i == obj as int) by {
                            if i != obj as int {
                                assert(self.spec_objects()[i].path@ == self.spec_objects()[obj as int].path@);
                            }
                        }
                    }
                }
            }
        }
        if saw_iface {
            Err(DispatchError::NoSuchMember)
        } else {
            Err(DispatchError::NoSuchInterface)
        }
    }

    /// Looks up an incoming method call's target; `Ok` says the named member
    /// is a method registered at that object and interface.
    pub fn check_method(&self, path: &str, iface: &str, member: &str) -> (r: Result<
        (),
        DispatchError,
    >)
        requires
            self.wf(),
        ensures
            r is Ok <==> self.spec_has_method(path@, iface@, member@),
            match r {
                Result::Ok(u) => true,
                Result::Err(e) => {
                    &&& (e == DispatchError::NoSuchObject <==> !self.spec_has_object(path@))
                    &&& (e == DispatchError::NoSuchInterface <==> self.spec_has_object(path@)
                        && !self.spec_has_iface(path@, iface@))
                    &&& (e == DispatchError::NoSuchMember <==> self.spec_has_iface(path@, iface@))
                },
            },
    {
        let nobj = self.objects.len();
        let mut oi: usize = 0;
        let mut obj_hit: Option<usize> = None;
        while oi < nobj
            invariant
                oi <= nobj,
                nobj == self.spec_objects().len(),
                match obj_hit {
                    Option::None => forall|t: int|
                        0 <= t < oi ==> (#[trigger] self.spec_objects()[t]).path@ != path@,
                    Option::Some(u) => u < nobj && self.spec_objects()[u as int].path@ == path@,
                },
            decreases nobj - oi,
        {
            if crate::values::str_eq(self.objects[oi].path.as_str(), path) {
                obj_hit = Some(oi);
            }
            oi += 1;
        }
        let obj = match obj_hit {
            Option::Some(u) => u,
            Option::None => {
                proof {
                    assert(!self.spec_has_object(path@));
                    assert(!self.spec_has_iface(path@, iface@)) by {
                        if self.spec_has_iface(path@, iface@) {
                            let (i, j) = choose|i: int, j: int|
                                self.iface_match(i, j, path@, iface@);
                            assert(self.spec_objects()[i].path@ == path@);
                        }
                    }
                }
                return Err(DispatchError::NoSuchObject);
            },
        };
        let ntok = self.objects[obj].interfaces.len();
        let mut j: usize = 0;
        let mut saw_iface: bool = false;
        while j < ntok
            invariant
                self.wf(),
                j <= ntok,
                obj < self.spec_objects().len(),
                self.spec_objects()[obj as int].path@ == path@,
                ntok == self.spec_objects()[obj as int].interfaces@.len(),
                saw_iface <==> exists|t: int|
                    0 <= t < j && self.iface_match(obj as int, t, path@, iface@),
                forall|t: int, k: int|
                    0 <= t < j ==> !self.method_match(obj as int, t, k, path@, iface@, member@),
            decreases ntok - j,
        {
            let token = self.objects[obj].interfaces[j];
            if crate::values::str_eq(self.registry[token].name.as_str(), iface) {
                saw_iface = true;
                proof {
                    assert(self.iface_match(obj as int, j as int, path@, iface@));
                }
                let nm = self.registry[token].methods.len();
                let mut k: usize = 0;
                while k < nm
                    invariant
                        self.wf(),
                        k <= nm,
                        obj < self.spec_objects().len(),
                        self.spec_objects()[obj as int].path@ == path@,
                        j < self.spec_objects()[obj as int].interfaces@.len(),
                        token == self.spec_objects()[obj as int].interfaces@[j as int],
                        (token as int) < self.spec_registry().len(),
                        self.spec_registry()[token as int].name@ == iface@,
                        nm == self.spec_registry()[token as int].methods@.len(),
                        forall|t: int|
                            0 <= t < k ==> (#[trigger] self.spec_registry()[token as int].methods@[t])@
                                != member@,
                    decreases nm - k,
                {
                    if crate::values::str_eq(self.registry[token].methods[k].as_str(), member) {
                        proof {
                            assert(self.method_match(
                                obj as int,
                                j as int,
                                k as int,
                                path@,
                                iface@,
                                member@,
                            ));
                        }
                        return Ok(());
                    }
                    k += 1;
                }
            }
            proof {
                assert forall|k: int| !self.method_match(
                    obj as int,
                    j as int,
                    k,
                    path@,
                    iface@,
                    member@,
                ) by {}
            }
            j += 1;
        }
        proof {
            assert(self.spec_has_object(path@)) by {
                assert(self.spec_objects()[obj as int].path@ == path@);
            }
            assert(!self.spec_has_method(path@, iface@, member@)) by {
                if self.spec_has_method(path@, iface@, member@) {
                    let (i, j2, k) = choose|i: int, j2: int, k: int|
                        self.method_match(i, j2, k, path@, iface@, member@);
                    assert(i == obj as int) by {
                        if i != obj as int {
                            assert(self.spec_objects()[i].path@ == self.spec_objects()[obj as int].path@);
                        }
                    }
                }
            }
            if !saw_iface {
                assert(!self.spec_has_iface(path@, iface@)) by {
                    if self.spec_has_iface(path@, iface@) {
                        let (i, j2) = choose|i: int, j2: int| self.iface_match(i, j2, path@, iface@);
                        assert(i == obj as int) by {
                            if i != obj as int {
                                assert(self.spec_objects()[i].path@ == self.spec_objects()[obj as int].path@);
                            }
                        }
                    }
                }
            }
        }
        if saw_iface {
            Err(DispatchError::NoSuchMember)
        } else {
            Err(DispatchError::NoSuchInterface)
        }
    }

    /// What one interface looks like in a snapshot taken against store state
    /// `s`: its name, and every property with the value its getter produces.
    pub open spec fn iface_snapshot_ok(&self, s: StoreModel, tok: int, snap: InterfaceSnapshot) -> bool {
        &&& snap.name@ == self.spec_registry()[tok].name@
        &&& snap.properties@.len() == self.spec_registry()[tok].properties@.len()
        &&& forall|k: int|
            0 <= k < snap.properties@.len() ==> (#[trigger] snap.properties@[k]).0@
                == self.spec_registry()[tok].properties@[k].name@ && snap.properties@[k].1@
                == spec_eval(self.spec_registry()[tok].properties@[k].getter@, s)
                && snap.properties@[k].1.wf()
    }

    /// What one object looks like in a snapshot taken against store state `s`.
    pub open spec fn object_snapshot_ok(&self, s: StoreModel, i: int, snap: ObjectSnapshot) -> bool {
        &&& snap.path@ == self.spec_objects()[i].path@
        &&& snap.interfaces@.len() == self.spec_objects()[i].interfaces@.len()
        &&& forall|j: int|
            0 <= j < snap.interfaces@.len() ==> self.iface_snapshot_ok(
                s,
                self.spec_objects()[i].interfaces@[j] as int,
                #[trigger] snap.interfaces@[j],
            )
    }

    /// The object-manager enumeration: one consistent snapshot of every
    /// registered path, every interface there, and every property with its
    /// current value, re-read from the store at snapshot time.
    pub fn managed_objects(&self, store: &PropertyStore) -> (r: Vec<ObjectSnapshot>)
        requires
            self.wf(),
            store.wf(),
        ensures
            r@.len() == self.spec_objects().len(),
            forall|i: int| 0 <= i < r@.len() ==> self.object_snapshot_ok(store@, i, #[trigger] r@[i]),
    {
        let nobj = self.objects.len();
        let mut out: Vec<ObjectSnapshot> = Vec::new();
        let mut i: usize = 0;
        while i < nobj
            invariant
                self.wf(),
                store.wf(),
                i <= nobj,
                nobj == self.spec_objects().len(),
                out@.len() == i,
                forall|t: int|
                    0 <= t < i ==> self.object_snapshot_ok(store@, t, #[trigger] out@[t]),
            decreases nobj - i,
        {
            let ntok = self.objects[i].interfaces.len();
            let mut snaps: Vec<InterfaceSnapshot> = Vec::new();
            let mut j: usize = 0;
            while j < ntok
                invariant
                    self.wf(),
                    store.wf(),
                    i < self.spec_objects().len(),
                    j <= ntok,
                    ntok == self.spec_objects()[i as int].interfaces@.len(),
                    snaps@.len() == j,
                    forall|t: int|
                        0 <= t < j ==> self.iface_snapshot_ok(
                            store@,
                            self.spec_objects()[i as int].interfaces@[t] as int,
                            #[trigger] snaps@[t],
                        ),
                decreases ntok - j,
            {
                let token = self.objects[i].interfaces[j];
                let np = self.registry[token].properties.len();
                let mut props: Vec<(String, PropertyValue)> = Vec::new();
                let mut k: usize = 0;
                while k < np
                    invariant
                        self.wf(),
                        store.wf(),
                        i < self.spec_objects().len(),
                        j < self.spec_objects()[i as int].interfaces@.len(),
                        token == self.spec_objects()[i as int].interfaces@[j as int],
                        (token as int) < self.spec_registry().len(),
                        k <= np,
                        np == self.spec_registry()[token as int].properties@.len(),
                        props@.len() == k,
                        forall|t: int|
                            0 <= t < k ==> (#[trigger] props@[t]).0@
                                == self.spec_registry()[token as int].properties@[t].name@
                                && props@[t].1@ == spec_eval(
                                self.spec_registry()[token as int].properties@[t].getter@,
                                store@,
                            ) && props@[t].1.wf(),
                    decreases np - k,
                {
                    let pd = &self.registry[token].properties[k];
                    let v = eval_getter(&pd.getter, store);
                    props.push((pd.name.clone(), v));
                    k += 1;
                }
                snaps.push(
                    InterfaceSnapshot { name: self.registry[token].name.clone(), properties: props },
                );
                j += 1;
            }
            out.push(ObjectSnapshot { path: self.objects[i].path.clone(), interfaces: snaps });
            i += 1;
        }
        out
    }
}

} // verus!
