//! The composition root: one adapter path, one GATT application with its
//! object tree, one advertisement. High-level calls forward to the owning
//! component; UUIDs arriving from the caller are rendered to their canonical
//! text form before they enter the property store.

use vstd::prelude::*;

use crate::advertisement::Advertisement;
use crate::advertisement::MethodReply;
use crate::advertisement::advertisement_snapshot_ok;
use crate::application::Application;
use crate::remote::Error;
use crate::remote::RemoteCall;
use crate::remote::advertisement_path;
use crate::remote::gatt_manager_iface;
use crate::remote::le_advertisement_iface;
use crate::remote::le_advertising_manager_iface;
use crate::remote::manager_service_name;
use crate::remote::path_base;
use crate::store::StoreModel;
use crate::store::data_map_or_empty;
use crate::store::spec_local_name;
use crate::store::spec_service_data;
use crate::store::spec_service_uuids;
use crate::tree::ObjectTree;
use crate::tree::DispatchError;
use crate::values::PropertyValue;
use crate::values::PvModel;
use crate::values::copy_bytes;

verus! {

#[verifier::external_type_specification]
#[verifier::external_body]
pub struct ExUuid(uuid::Uuid);

/// The canonical text of a UUID: a function of its bytes alone.
pub uninterp spec fn uuid_text(u: uuid::Uuid) -> Seq<char>;

/// Relies on uuid::Uuid's Display implementation: the hyphenated lowercase
/// form, 36 characters, determined by the UUID's value alone.
#[verifier::external_body]
fn uuid_to_string(u: &uuid::Uuid) -> (r: String)
    ensures
        r@ == uuid_text(*u),
        r@.len() == 36,
{
    u.to_string()
}

/// A list of strings renders the given UUIDs in order.
pub open spec fn uuid_strings_ok(us: Seq<String>, inputs: Seq<uuid::Uuid>) -> bool {
    &&& us.len() == inputs.len()
    &&& forall|i: int| 0 <= i < us.len() ==> (#[trigger] us[i])@ == uuid_text(inputs[i])
}

/// The service-data map after storing `entries` in order, last write to a
/// key winning.
pub open spec fn insert_all(
    m: Map<Seq<char>, Seq<u8>>,
    entries: Seq<(String, Vec<u8>)>,
) -> Map<Seq<char>, Seq<u8>>
    decreases entries.len(),
{
    if entries.len() == 0 {
        m
    } else {
        insert_all(m, entries.drop_last()).insert(entries.last().0@, entries.last().1@)
    }
}

/// A BLE peripheral: one adapter, one GATT application, one advertisement.
pub struct Peripheral {
    adapter: String,
    tree: ObjectTree,
    gatt: Application,
    advertisement: Advertisement,
}

impl Peripheral {
    /// The adapter object path every manager call is addressed to.
    pub closed spec fn spec_adapter(&self) -> Seq<char> {
        self.adapter@
    }

    pub closed spec fn spec_tree(&self) -> ObjectTree {
        self.tree
    }

    pub closed spec fn spec_gatt(&self) -> Application {
        self.gatt
    }

    pub closed spec fn spec_advertisement(&self) -> Advertisement {
        self.advertisement
    }

    pub closed spec fn wf(&self) -> bool {
        &&& self.tree.wf()
        &&& self.advertisement.wf()
        &&& self.gatt.spec_path() == path_base()
        &&& self.gatt.spec_adapter() == self.adapter@
        &&& self.advertisement.spec_adapter() == self.adapter@
    }

    /// Composes the peripheral for one adapter: the application root with
    /// its tree, and the advertisement with empty property cells, not yet
    /// advertising. Powering the adapter and binding the bus connection
    /// happen outside this core.
    pub fn new(adapter: String) -> (r: Self)
        ensures
            r.wf(),
            r.spec_adapter() == adapter@,
            !r.spec_advertisement().spec_advertising(),
            r.spec_advertisement().spec_store() == (StoreModel {
                name: Option::None,
                uuids: Option::None,
                service_data: Option::None,
            }),
    {
        let mut tree = ObjectTree::new();
        let gatt = Application::new(&mut tree, adapter.clone());
        let advertisement = Advertisement::new(adapter.clone());
        Peripheral { adapter, tree, gatt, advertisement }
    }

    /// The `RegisterApplication` call for this peripheral's GATT root.
    pub fn register_gatt(&self) -> (c: RemoteCall)
        requires
            self.wf(),
        ensures
            c.destination@ == manager_service_name(),
            c.target_path@ == self.spec_adapter(),
            c.interface@ == gatt_manager_iface(),
            c.member@ == "RegisterApplication"@,
            c.argument_path@ == path_base(),
    {
        self.gatt.register()
    }

    /// The `UnregisterApplication` call for this peripheral's GATT root.
    pub fn unregister_gatt(&self) -> (c: RemoteCall)
        requires
            self.wf(),
        ensures
            c.destination@ == manager_service_name(),
            c.target_path@ == self.spec_adapter(),
            c.interface@ == gatt_manager_iface(),
            c.member@ == "UnregisterApplication"@,
            c.argument_path@ == path_base(),
    {
        self.gatt.unregister()
    }

    /// Fills the advertisement's property cells — the name, the UUID list
    /// in canonical text form, and every service-data entry in order — and
    /// produces the `RegisterAdvertisement` call. Advertising turns on only
    /// when the reply comes back successful (`confirm_advertising`).
    pub fn start_advertising(
        &mut self,
        name: &str,
        uuids: &Vec<uuid::Uuid>,
        data: &Vec<(String, Vec<u8>)>,
    ) -> (c: RemoteCall)
        requires
            old(self).wf(),
        ensures
            final(self).wf(),
            final(self).spec_adapter() == old(self).spec_adapter(),
            final(self).spec_advertisement().spec_advertising() == old(
                self,
            ).spec_advertisement().spec_advertising(),
            final(self).spec_advertisement().spec_store().name == Option::Some(name@),
            final(self).spec_advertisement().spec_store().uuids matches Option::Some(us)
                && uuid_strings_ok(us, uuids@),
            data@.len() > 0 ==> final(self).spec_advertisement().spec_store().service_data
                == Option::Some(
                insert_all(
                    data_map_or_empty(old(self).spec_advertisement().spec_store().service_data),
                    data@,
                ),
            ),
            data@.len() == 0 ==> final(self).spec_advertisement().spec_store().service_data == old(
                self,
            ).spec_advertisement().spec_store().service_data,
            c.destination@ == manager_service_name(),
            c.target_path@ == old(self).spec_adapter(),
            c.interface@ == le_advertising_manager_iface(),
            c.member@ == "RegisterAdvertisement"@,
            c.argument_path@ == advertisement_path(),
    {
        self.advertisement.add_name(name.to_owned());

        let n = uuids.len();
        let mut us: Vec<String> = Vec::new();
        let mut i: usize = 0;
        while i < n
            invariant
                i <= n,
                n == uuids@.len(),
                us@.len() == i,
                forall|t: int| 0 <= t < i ==> (#[trigger] us@[t])@ == uuid_text(uuids@[t]),
            decreases n - i,
        {
            us.push(uuid_to_string(&uuids[i]));
            i += 1;
        }
        self.advertisement.add_uuids(us);

        let ghost m0 = data_map_or_empty(old(self).spec_advertisement().spec_store().service_data);
        let nd = data.len();
        let mut d: usize = 0;
        while d < nd
            invariant
                d <= nd,
                nd == data@.len(),
                m0 == data_map_or_empty(old(self).spec_advertisement().spec_store().service_data),
                self.wf(),
                self.spec_adapter() == old(self).spec_adapter(),
                self.spec_advertisement().spec_advertising() == old(
                    self,
                ).spec_advertisement().spec_advertising(),
                self.spec_advertisement().spec_store().name == Option::Some(name@),
                self.spec_advertisement().spec_store().uuids matches Option::Some(us2)
                    && uuid_strings_ok(us2, uuids@),
                self.spec_advertisement().spec_store().service_data == (if d == 0 {
                    old(self).spec_advertisement().spec_store().service_data
                } else {
                    Option::Some(insert_all(m0, data@.subrange(0, d as int)))
                }),
            decreases nd - d,
        {
            let key = data[d].0.clone();
            let payload = copy_bytes(&data[d].1);
            proof {
                let sub1 = data@.subrange(0, d as int + 1);
                assert(sub1.drop_last() =~= data@.subrange(0, d as int));
                assert(sub1.last() == data@[d as int]);
                assert(insert_all(m0, sub1) == insert_all(m0, sub1.drop_last()).insert(
                    sub1.last().0@,
                    sub1.last().1@,
                ));
                if d == 0 {
                    assert(data@.subrange(0, 0).len() == 0);
                    assert(insert_all(m0, data@.subrange(0, 0)) == m0);
                }
            }
            let ghost prev = self.spec_advertisement().spec_store().service_data;
            self.advertisement.add_service_data(key, payload);
            proof {
                assert(key@ == data@[d as int].0@);
                assert(payload@ == data@[d as int].1@);
                assert(self.spec_advertisement().spec_store().service_data == Option::Some(
                    data_map_or_empty(prev).insert(key@, payload@),
                ));
                if d == 0 {
                    assert(data_map_or_empty(prev) == m0);
                } else {
                    assert(data_map_or_empty(prev) == insert_all(m0, data@.subrange(0, d as int)));
                }
                assert(self.spec_advertisement().spec_store().service_data == Option::Some(
                    insert_all(m0, data@.subrange(0, d as int + 1)),
                ));
            }
            d += 1;
        }
        proof {
            if data@.len() > 0 {
                assert(data@.subrange(0, nd as int) =~= data@);
            }
        }

        self.advertisement.register()
    }

    /// Applies the remote reply to `RegisterAdvertisement`: success turns
    /// advertising on; failure leaves the flag as it was and propagates the
    /// provider's error unchanged.
    pub fn confirm_advertising(&mut self, outcome: Result<(), Error>) -> (r: Result<(), Error>)
        requires
            old(self).wf(),
        ensures
            final(self).wf(),
            final(self).spec_adapter() == old(self).spec_adapter(),
            final(self).spec_advertisement().spec_store() == old(
                self,
            ).spec_advertisement().spec_store(),
            r == outcome,
            outcome is Ok ==> final(self).spec_advertisement().spec_advertising(),
            outcome is Err ==> final(self).spec_advertisement().spec_advertising() == old(
                self,
            ).spec_advertisement().spec_advertising(),
    {
        self.advertisement.register_complete(outcome)
    }

    /// Clears the advertising flag — before the remote call resolves — and
    /// produces the `UnregisterAdvertisement` call.
    pub fn stop_advertising(&mut self) -> (c: RemoteCall)
        requires
            old(self).wf(),
        ensures
            final(self).wf(),
            final(self).spec_adapter() == old(self).spec_adapter(),
            final(self).spec_advertisement().spec_store() == old(
                self,
            ).spec_advertisement().spec_store(),
            !final(self).spec_advertisement().spec_advertising(),
            c.destination@ == manager_service_name(),
            c.target_path@ == old(self).spec_adapter(),
            c.interface@ == le_advertising_manager_iface(),
            c.member@ == "UnregisterAdvertisement"@,
            c.argument_path@ == advertisement_path(),
    {
        self.advertisement.unregister()
    }

    /// Whether the advertisement is currently active. Always succeeds.
    pub fn is_advertising(&self) -> (r: Result<bool, Error>)
        ensures
            r == Result::<bool, Error>::Ok(self.spec_advertisement().spec_advertising()),
    {
        Ok(self.advertisement.is_advertising())
    }

    /// Attaches an externally built GATT service sub-object under the
    /// application root; its own interfaces are outside this core. The
    /// path must not be taken yet (`has_service_path` tells).
    pub fn add_service(&mut self, service_path: String)
        requires
            old(self).wf(),
            !old(self).spec_tree().spec_has_object(service_path@),
        ensures
            final(self).wf(),
            final(self).spec_adapter() == old(self).spec_adapter(),
            final(self).spec_advertisement() == old(self).spec_advertisement(),
            final(self).spec_tree().spec_objects().len() == old(
                self,
            ).spec_tree().spec_objects().len() + 1,
            final(self).spec_tree().spec_objects().last().path@ == service_path@,
            final(self).spec_tree().spec_objects().last().interfaces@.len() == 0,
    {
        let tokens: Vec<usize> = Vec::new();
        self.tree.insert(service_path, tokens);
    }

    /// Whether a service sub-object already sits at `path`.
    pub fn has_service_path(&self, path: &str) -> (r: bool)
        ensures
            r == self.spec_tree().spec_has_object(path@),
    {
        self.tree.contains_object(path)
    }

    /// Serves an incoming property read against the advertisement object.
    pub fn read_property(&self, path: &str, iface: &str, prop: &str) -> (r: Result<
        PropertyValue,
        DispatchError,
    >)
        requires
            self.wf(),
        ensures
            r is Ok <==> (path@ == advertisement_path() && iface@ == le_advertisement_iface() && (
            prop@ == "Type"@ || prop@ == "LocalName"@ || prop@ == "ServiceUUIDs"@ || prop@
                == "ServiceData"@)),
            r matches Result::Ok(v) ==> {
                &&& v.wf()
                &&& prop@ == "Type"@ ==> v@ == PvModel::Text("peripheral"@)
                &&& prop@ == "LocalName"@ ==> v@ == spec_local_name(
                    self.spec_advertisement().spec_store(),
                )
                &&& prop@ == "ServiceUUIDs"@ ==> v@ == spec_service_uuids(
                    self.spec_advertisement().spec_store(),
                )
                &&& prop@ == "ServiceData"@ ==> v@ == spec_service_data(
                    self.spec_advertisement().spec_store(),
                )
            },
    {
        self.advertisement.read_property(path, iface, prop)
    }

    /// Serves an incoming method call against the advertisement object:
    /// `Release` revokes advertising; the object-manager enumeration
    /// returns the advertisement tree's snapshot.
    pub fn dispatch_method(&mut self, path: &str, iface: &str, member: &str) -> (r: Result<
        MethodReply,
        DispatchError,
    >)
        requires
            old(self).wf(),
        ensures
            final(self).wf(),
            final(self).spec_adapter() == old(self).spec_adapter(),
            final(self).spec_advertisement().spec_store() == old(
                self,
            ).spec_advertisement().spec_store(),
            (path@ == advertisement_path() && iface@ == le_advertisement_iface() && member@
                == "Release"@) ==> (r matches Result::Ok(MethodReply::Empty)
                && !final(self).spec_advertisement().spec_advertising()),
            r matches Result::Ok(MethodReply::ManagedObjects(s))
                ==> advertisement_snapshot_ok(s@, old(self).spec_advertisement().spec_store()),
            r matches Result::Err(e) ==> {
                &&& final(self).spec_advertisement().spec_advertising() == old(
                    self,
                ).spec_advertisement().spec_advertising()
                &&& (e == DispatchError::NoSuchObject <==> path@ != advertisement_path())
            },
    {
        self.advertisement.dispatch_method(path, iface, member)
    }
}

} // verus!
