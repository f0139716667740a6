//! The shared property cells behind the advertisement object: optional name,
//! UUID list, and service-data map. Mutation and read are independent of bus
//! activity; every property read substitutes a type-appropriate empty default
//! while its cell is still absent. The embedding program shares one store
//! between application code and its dispatch loop behind a short-lived lock,
//! never held across a suspension point; a poisoned lock aborts the call
//! there rather than serving stale data.

use vstd::prelude::*;

use crate::values::PropertyValue;
use crate::values::PvModel;
use crate::values::ServiceData;
use crate::values::copy_strings;

verus! {

/// The abstract state of the three cells. `None` is the initial, absent state
/// of each property.
pub ghost struct StoreModel {
    pub name: Option<Seq<char>>,
    pub uuids: Option<Seq<String>>,
    pub service_data: Option<Map<Seq<char>, Seq<u8>>>,
}

/// Holder for the optional values that back the advertisement's exposed
/// properties.
pub struct PropertyStore {
    name: Option<String>,
    uuids: Option<Vec<String>>,
    service_data: Option<ServiceData>,
}

/// The service-data map a reader sees: the stored one, or empty while the
/// cell is absent.
pub open spec fn data_map_or_empty(d: Option<Map<Seq<char>, Seq<u8>>>) -> Map<Seq<char>, Seq<u8>> {
    match d {
        Option::Some(m) => m,
        Option::None => Map::empty(),
    }
}

/// What a read of the local-name property returns for a given store state.
pub open spec fn spec_local_name(s: StoreModel) -> PvModel {
    match s.name {
        Option::Some(t) => PvModel::Text(t),
        Option::None => PvModel::Text(Seq::empty()),
    }
}

/// What a read of the UUID-list property returns for a given store state.
pub open spec fn spec_service_uuids(s: StoreModel) -> PvModel {
    match s.uuids {
        Option::Some(v) => PvModel::TextList(v),
        Option::None => PvModel::TextList(Seq::empty()),
    }
}

/// What a read of the service-data property returns for a given store state.
pub open spec fn spec_service_data(s: StoreModel) -> PvModel {
    PvModel::DataMap(data_map_or_empty(s.service_data))
}

impl View for PropertyStore {
    type V = StoreModel;

    closed spec fn view(&self) -> StoreModel {
        StoreModel {
            name: match self.name {
                Option::Some(n) => Option::Some(n@),
                Option::None => Option::None,
            },
            uuids: match self.uuids {
                Option::Some(u) => Option::Some(u@),
                Option::None => Option::None,
            },
            service_data: match self.service_data {
                Option::Some(d) => Option::Some(d@),
                Option::None => Option::None,
            },
        }
    }
}

impl PropertyStore {
    /// The stored service-data entries never repeat a key.
    pub closed spec fn wf(&self) -> bool {
        match self.service_data {
            Option::Some(d) => d.wf(),
            Option::None => true,
        }
    }

    /// Every cell starts absent.
    pub fn new() -> (r: Self)
        ensures
            r.wf(),
            r@ == (StoreModel {
                name: Option::None,
                uuids: Option::None,
                service_data: Option::None,
            }),
    {
        PropertyStore { name: None, uuids: None, service_data: None }
    }

    /// Replaces the stored name; the other cells keep their values.
    pub fn set_name(&mut self, name: String)
        requires
            old(self).wf(),
        ensures
            final(self).wf(),
            final(self)@ == (StoreModel { name: Option::Some(name@), ..old(self)@ }),
    {
        self.name = Some(name);
    }

    /// Replaces the stored UUID list; the other cells keep their values.
    pub fn set_uuids(&mut self, uuids: Vec<String>)
        requires
            old(self).wf(),
        ensures
            final(self).wf(),
            final(self)@ == (StoreModel { uuids: Option::Some(uuids@), ..old(self)@ }),
    {
        self.uuids = Some(uuids);
    }

    /// Stores `payload` under `id` in the service-data map, creating the map
    /// on first use and overwriting any payload already held for `id`.
    pub fn upsert_service_data(&mut self, id: String, payload: Vec<u8>)
        requires
            old(self).wf(),
        ensures
            final(self).wf(),
            final(self)@ == (StoreModel {
                service_data: Option::Some(
                    data_map_or_empty(old(self)@.service_data).insert(id@, payload@),
                ),
                ..old(self)@
            }),
    {
        match &mut self.service_data {
            Some(d) => {
                d.insert(id, payload);
            },
            None => {
                let mut d = ServiceData::new();
                d.insert(id, payload);
                self.service_data = Some(d);
            },
        }
    }

    /// The current local name, or the empty string while absent.
    pub fn read_local_name(&self) -> (r: PropertyValue)
        requires
            self.wf(),
        ensures
            r.wf(),
            r@ == spec_local_name(self@),
    {
        match &self.name {
            Some(n) => PropertyValue::Text(n.clone()),
            None => PropertyValue::Text(String::new()),
        }
    }

    /// The current UUID list, or the empty list while absent.
    pub fn read_service_uuids(&self) -> (r: PropertyValue)
        requires
            self.wf(),
        ensures
            r.wf(),
            r@ == spec_service_uuids(self@),
    {
        match &self.uuids {
            Some(u) => PropertyValue::TextList(copy_strings(u)),
            None => PropertyValue::TextList(Vec::new()),
        }
    }

    /// The current service-data map, or the empty map while absent.
    pub fn read_service_data(&self) -> (r: PropertyValue)
        requires
            self.wf(),
        ensures
            r.wf(),
            r@ == spec_service_data(self@),
    {
        match &self.service_data {
            Some(d) => PropertyValue::DataMap(d.duplicate()),
            None => PropertyValue::DataMap(ServiceData::new()),
        }
    }
}

} // verus!
