//! Laws of the property store and the enumeration, stated over the
//! mathematical models that the executable functions' contracts use.

use vstd::prelude::*;

use crate::advertisement::advertisement_snapshot_ok;
use crate::remote::advertisement_path;
use crate::store::StoreModel;
use crate::store::data_map_or_empty;
use crate::store::spec_local_name;
use crate::store::spec_service_data;
use crate::store::spec_service_uuids;
use crate::tree::ObjectSnapshot;
use crate::values::PvModel;

verus! {

/// The empty store every advertisement starts from.
pub open spec fn initial_store() -> StoreModel {
    StoreModel { name: Option::None, uuids: Option::None, service_data: Option::None }
}

/// A property read before any write returns the documented empty default —
/// the empty string, the empty list, the empty map — never an error.
pub proof fn law_defaults_before_first_write()
    ensures
        spec_local_name(initial_store()) == PvModel::Text(Seq::<char>::empty()),
        spec_service_uuids(initial_store()) == PvModel::TextList(Seq::<String>::empty()),
        spec_service_data(initial_store()) == PvModel::DataMap(Map::<Seq<char>, Seq<u8>>::empty()),
{
}

/// A read that follows a write of the name sees exactly the written name,
/// and the other two properties still read whatever they read before: no
/// read sees a value older than the latest completed write, and the write
/// loses nothing else.
pub proof fn law_name_read_after_write(s: StoreModel, n: Seq<char>)
    ensures
        spec_local_name(StoreModel { name: Option::Some(n), ..s }) == PvModel::Text(n),
        spec_service_uuids(StoreModel { name: Option::Some(n), ..s }) == spec_service_uuids(s),
        spec_service_data(StoreModel { name: Option::Some(n), ..s }) == spec_service_data(s),
{
}

/// A read that follows a write of the UUID list sees exactly the written
/// list, and the other two properties read as before.
pub proof fn law_uuids_read_after_write(s: StoreModel, us: Seq<String>)
    ensures
        spec_service_uuids(StoreModel { uuids: Option::Some(us), ..s }) == PvModel::TextList(us),
        spec_local_name(StoreModel { uuids: Option::Some(us), ..s }) == spec_local_name(s),
        spec_service_data(StoreModel { uuids: Option::Some(us), ..s }) == spec_service_data(s),
{
}

/// A read that follows a service-data write sees the prior map with exactly
/// that entry updated, and the other two properties read as before.
pub proof fn law_service_data_read_after_write(s: StoreModel, k: Seq<char>, v: Seq<u8>)
    ensures
        spec_service_data(
            StoreModel {
                service_data: Option::Some(data_map_or_empty(s.service_data).insert(k, v)),
                ..s
            },
        ) == PvModel::DataMap(data_map_or_empty(s.service_data).insert(k, v)),
        spec_local_name(
            StoreModel {
                service_data: Option::Some(data_map_or_empty(s.service_data).insert(k, v)),
                ..s
            },
        ) == spec_local_name(s),
        spec_service_uuids(
            StoreModel {
                service_data: Option::Some(data_map_or_empty(s.service_data).insert(k, v)),
                ..s
            },
        ) == spec_service_uuids(s),
{
}

/// Writing the same service identifier twice leaves exactly the second
/// payload under that identifier — the first write is overwritten, not
/// duplicated — and no other identifier's payload moves.
pub proof fn law_service_data_overwrite(
    m: Map<Seq<char>, Seq<u8>>,
    k: Seq<char>,
    v1: Seq<u8>,
    v2: Seq<u8>,
)
    ensures
        m.insert(k, v1).insert(k, v2) == m.insert(k, v2),
        m.insert(k, v1).insert(k, v2)[k] == v2,
        m.insert(k, v1).insert(k, v2).dom() == m.dom().insert(k),
        forall|k2: Seq<char>|
            m.dom().contains(k2) && k2 != k ==> m.insert(k, v1).insert(k, v2)[k2] == m[k2],
{
    assert(m.insert(k, v1).insert(k, v2) =~= m.insert(k, v2));
    assert(m.insert(k, v1).insert(k, v2).dom() =~= m.dom().insert(k));
}

/// An enumeration taken right after construction — no property writes yet —
/// shows one object at the advertisement path whose advertisement interface
/// exposes its four properties, all carrying their defaults.
pub proof fn law_initial_enumeration(snaps: Seq<ObjectSnapshot>)
    requires
        advertisement_snapshot_ok(snaps, initial_store()),
    ensures
        snaps.len() == 1,
        snaps[0].path@ == advertisement_path(),
        snaps[0].interfaces@[0].properties@.len() == 4,
        snaps[0].interfaces@[0].properties@[0].1@ == PvModel::Text("peripheral"@),
        snaps[0].interfaces@[0].properties@[1].1@ == PvModel::Text(Seq::<char>::empty()),
        snaps[0].interfaces@[0].properties@[2].1@ == PvModel::TextList(Seq::<String>::empty()),
        snaps[0].interfaces@[0].properties@[3].1@ == PvModel::DataMap(
            Map::<Seq<char>, Seq<u8>>::empty(),
        ),
{
}

} // verus!
