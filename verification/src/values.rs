//! Property values exposed on the bus, and the per-service advertisement
//! payload map.

use vstd::prelude::*;

verus! {

/// Per-service advertisement payload: a mapping from service identifier to an
/// opaque byte payload. Keys are unique; inserting an identifier that is
/// already present overwrites its payload.
pub struct ServiceData {
    entries: Vec<(String, Vec<u8>)>,
}

/// A value carried inside the transport's typed-variant wrapper. Only byte
/// sequences occur in encoded service data: each entry is presented as a
/// single-element byte-sequence variant keyed by its service identifier.
pub enum WireVariant {
    Bytes(Vec<u8>),
}

impl View for ServiceData {
    type V = Map<Seq<char>, Seq<u8>>;

    /// The abstract contents: a map from identifier to payload.
    closed spec fn view(&self) -> Map<Seq<char>, Seq<u8>> {
        Self::map_of(self.entries@)
    }
}

impl ServiceData {
    pub closed spec fn map_of(s: Seq<(String, Vec<u8>)>) -> Map<Seq<char>, Seq<u8>>
        decreases s.len(),
    {
        if s.len() == 0 {
            Map::empty()
        } else {
            Self::map_of(s.drop_last()).insert(s.last().0@, s.last().1@)
        }
    }

    spec fn unique_keys(s: Seq<(String, Vec<u8>)>) -> bool {
        forall|i: int, j: int| 0 <= i < j < s.len() ==> s[i].0@ != s[j].0@
    }

    spec fn has_key(s: Seq<(String, Vec<u8>)>, k: Seq<char>) -> bool {
        exists|i: int| 0 <= i < s.len() && (#[trigger] s[i]).0@ == k
    }

    /// Keys never repeat among the stored entries.
    pub closed spec fn wf(&self) -> bool {
        Self::unique_keys(self.entries@)
    }

    /// How many identifiers hold a payload.
    pub closed spec fn num_entries(&self) -> nat {
        self.entries@.len()
    }

    pub fn new() -> (r: Self)
        ensures
            r.wf(),
            r@ == Map::<Seq<char>, Seq<u8>>::empty(),
            r.num_entries() == 0,
    {
        ServiceData { entries: Vec::new() }
    }

    proof fn lemma_contains(s: Seq<(String, Vec<u8>)>, k: Seq<char>)
        ensures
            Self::map_of(s).dom().contains(k) <==> Self::has_key(s, k),
        decreases s.len(),
    {
        if s.len() > 0 {
            let t = s.drop_last();
            Self::lemma_contains(t, k);
            if s.last().0@ == k {
                assert((s[s.len() - 1]).0@ == k);
            } else {
                if Self::has_key(s, k) {
                    let i = choose|i: int| 0 <= i < s.len() && (#[trigger] s[i]).0@ == k;
                    assert(i < s.len() - 1);
                    assert((t[i]).0@ == k);
                }
                if Self::has_key(t, k) {
                    let i = choose|i: int| 0 <= i < t.len() && (#[trigger] t[i]).0@ == k;
                    assert((s[i]).0@ == k);
                }
            }
        }
    }

    proof fn lemma_congruent(a: Seq<(String, Vec<u8>)>, b: Seq<(String, Vec<u8>)>)
        requires
            a.len() == b.len(),
            forall|i: int|
                0 <= i < a.len() ==> (#[trigger] a[i]).0@ == b[i].0@ && a[i].1@ == b[i].1@,
        ensures
            Self::map_of(a) == Self::map_of(b),
        decreases a.len(),
    {
        if a.len() > 0 {
            Self::lemma_congruent(a.drop_last(), b.drop_last());
            assert(Self::map_of(a) =~= Self::map_of(b));
        }
    }

    proof fn lemma_value(s: Seq<(String, Vec<u8>)>, j: int)
        requires
            Self::unique_keys(s),
            0 <= j < s.len(),
        ensures
            Self::map_of(s).dom().contains(s[j].0@),
            Self::map_of(s)[s[j].0@] == s[j].1@,
        decreases s.len(),
    {
        if j == s.len() - 1 {
        } else {
            let t = s.drop_last();
            Self::lemma_value(t, j);
            assert(s.last().0@ != s[j].0@);
        }
    }

    proof fn lemma_remove(s: Seq<(String, Vec<u8>)>, j: int)
        requires
            Self::unique_keys(s),
            0 <= j < s.len(),
        ensures
            Self::map_of(s.remove(j)) == Self::map_of(s).remove(s[j].0@),
        decreases s.len(),
    {
        s.remove_ensures(j);
        if j == s.len() - 1 {
            assert(s.remove(j) =~= s.drop_last());
            Self::lemma_contains(s.drop_last(), s[j].0@);
            assert(!Self::has_key(s.drop_last(), s[j].0@)) by {
                if Self::has_key(s.drop_last(), s[j].0@) {
                    let i = choose|i: int|
                        0 <= i < s.drop_last().len() && (#[trigger] s.drop_last()[i]).0@ == s[j].0@;
                    assert(s[i].0@ == s[j].0@);
                }
            }
            assert(Self::map_of(s).remove(s[j].0@) =~= Self::map_of(s.drop_last()));
        } else {
            let t = s.drop_last();
            t.remove_ensures(j);
            assert(s.remove(j).last() == s.last());
            assert(s.remove(j).drop_last() =~= t.remove(j));
            Self::lemma_remove(t, j);
            assert(t[j] == s[j]);
            assert(s.last().0@ != s[j].0@);
            assert(Self::map_of(t).remove(s[j].0@).insert(s.last().0@, s.last().1@) =~= Self::map_of(
                t,
            ).insert(s.last().0@, s.last().1@).remove(s[j].0@));
        }
    }

    /// Stores `value` under `key`, overwriting any payload already held for
    /// that identifier; the identifier occupies exactly one entry afterwards.
    pub fn insert(&mut self, key: String, value: Vec<u8>)
        requires
            old(self).wf(),
        ensures
            final(self).wf(),
            final(self)@ == old(self)@.insert(key@, value@),
            old(self)@.dom().contains(key@) ==> final(self).num_entries() == old(
                self,
            ).num_entries(),
            !old(self)@.dom().contains(key@) ==> final(self).num_entries() == old(
                self,
            ).num_entries() + 1,
    {
        let ghost s0 = self.entries@;
        let n = self.entries.len();
        let mut i: usize = 0;
        let mut hit: Option<usize> = None;
        while i < n
            invariant
                i <= n,
                n == self.entries@.len(),
                self.entries@ == s0,
                match hit {
                    Option::None => forall|t: int| 0 <= t < i ==> (#[trigger] s0[t]).0@ != key@,
                    Option::Some(j) => j < n && s0[j as int].0@ == key@,
                },
            decreases n - i,
        {
            let e = &self.entries[i];
            if e.0 == key {
                hit = Some(i);
            }
            i += 1;
        }
        proof {
            Self::lemma_contains(s0, key@);
        }
        match hit {
            Option::Some(j) => {
                proof {
                    Self::lemma_remove(s0, j as int);
                    s0.remove_ensures(j as int);
                }
                self.entries.remove(j);
                self.entries.push((key, value));
                proof {
                    let s1 = s0.remove(j as int);
                    assert(self.entries@.drop_last() =~= s1);
                    assert(Self::map_of(s0).remove(s0[j as int].0@).insert(
                        self.entries@.last().0@,
                        self.entries@.last().1@,
                    ) =~= Self::map_of(s0).insert(self.entries@.last().0@, self.entries@.last().1@));
                    assert(forall|t: int|
                        0 <= t < s1.len() ==> (#[trigger] s1[t]).0@ != s0[j as int].0@);
                    assert(self@ =~= old(self)@.insert(self.entries@.last().0@, value@));
                }
            },
            Option::None => {
                self.entries.push((key, value));
                proof {
                    assert(self.entries@.drop_last() =~= s0);
                    assert(self@ =~= old(self)@.insert(self.entries@.last().0@, value@));
                }
            },
        }
    }

    /// How many identifiers hold a payload.
    pub fn len(&self) -> (r: usize)
        ensures
            r == self.num_entries(),
    {
        self.entries.len()
    }

    /// Looks up the payload currently held for `key`, if any.
    pub fn get(&self, key: &String) -> (r: Option<&Vec<u8>>)
        requires
            self.wf(),
        ensures
            match r {
                Option::Some(v) => self@.dom().contains(key@) && v@ == self@[key@],
                Option::None => !self@.dom().contains(key@),
            },
    {
        let n = self.entries.len();
        let mut i: usize = 0;
        while i < n
            invariant
                i <= n,
                self.wf(),
                n == self.entries@.len(),
                forall|t: int| 0 <= t < i ==> (#[trigger] self.entries@[t]).0@ != key@,
            decreases n - i,
        {
            let e = &self.entries[i];
            if e.0 == *key {
                proof {
                    Self::lemma_value(self.entries@, i as int);
                }
                return Some(&self.entries[i].1);
            }
            i += 1;
        }
        proof {
            Self::lemma_contains(self.entries@, key@);
        }
        None
    }

    /// A copy with the same contents.
    pub fn duplicate(&self) -> (r: Self)
        requires
            self.wf(),
        ensures
            r.wf(),
            r@ == self@,
            r.num_entries() == self.num_entries(),
    {
        let n = self.entries.len();
        let mut out: Vec<(String, Vec<u8>)> = Vec::new();
        let mut i: usize = 0;
        while i < n
            invariant
                i <= n,
                n == self.entries@.len(),
                out@.len() == i,
                forall|t: int|
                    0 <= t < i ==> (#[trigger] out@[t]).0@ == self.entries@[t].0@ && out@[t].1@
                        == self.entries@[t].1@,
            decreases n - i,
        {
            let e = &self.entries[i];
            out.push((e.0.clone(), copy_bytes(&e.1)));
            i += 1;
        }
        proof {
            Self::lemma_congruent(out@, self.entries@);
        }
        ServiceData { entries: out }
    }

    /// The shape in which the map crosses the bus: each identifier keyed to a
    /// variant wrapping its byte payload (the transport's `a{sv}` signature).
    pub fn encode(&self) -> (r: Vec<(String, WireVariant)>)
        requires
            self.wf(),
        ensures
            r@.len() == self.num_entries(),
            forall|i: int|
                0 <= i < r@.len() ==> self@.dom().contains((#[trigger] r@[i]).0@) && r@[i].1->0@
                    == self@[r@[i].0@],
            forall|i: int, j: int| 0 <= i < j < r@.len() ==> r@[i].0@ != r@[j].0@,
            forall|k: Seq<char>|
                self@.dom().contains(k) ==> exists|i: int|
                    0 <= i < r@.len() && (#[trigger] r@[i]).0@ == k,
    {
        let n = self.entries.len();
        let mut out: Vec<(String, WireVariant)> = Vec::new();
        let mut i: usize = 0;
        while i < n
            invariant
                i <= n,
                self.wf(),
                n == self.entries@.len(),
                out@.len() == i,
                forall|t: int|
                    0 <= t < i ==> (#[trigger] out@[t]).0@ == self.entries@[t].0@ && out@[t].1->0@
                        == self.entries@[t].1@,
            decreases n - i,
        {
            let e = &self.entries[i];
            out.push((e.0.clone(), WireVariant::Bytes(copy_bytes(&e.1))));
            i += 1;
        }
        proof {
            assert forall|t: int| 0 <= t < out@.len() implies Self::map_of(self.entries@).dom().contains(
                (#[trigger] out@[t]).0@,
            ) && out@[t].1->0@ == Self::map_of(self.entries@)[out@[t].0@] by {
                Self::lemma_value(self.entries@, t);
            }
            assert forall|k: Seq<char>| Self::map_of(self.entries@).dom().contains(k) implies exists|
                i: int,
            | 0 <= i < out@.len() && (#[trigger] out@[i]).0@ == k by {
                Self::lemma_contains(self.entries@, k);
                let j = choose|j: int|
                    0 <= j < self.entries@.len() && (#[trigger] self.entries@[j]).0@ == k;
                assert(out@[j].0@ == k);
            }
        }
        out
    }
}

/// Whether two strings hold the same characters.
pub fn str_eq(a: &str, b: &str) -> (r: bool)
    ensures
        r == (a@ == b@),
{
    let ao: String = a.to_owned();
    let bo: String = b.to_owned();
    ao == bo
}

/// Copies a byte payload element by element.
pub fn copy_bytes(v: &Vec<u8>) -> (r: Vec<u8>)
    ensures
        r@ == v@,
{
    let n = v.len();
    let mut out: Vec<u8> = Vec::new();
    let mut i: usize = 0;
    while i < n
        invariant
            i <= n,
            n == v@.len(),
            out@ == v@.subrange(0, i as int),
        decreases n - i,
    {
        out.push(v[i]);
        proof {
            assert(out@ =~= v@.subrange(0, i + 1));
        }
        i += 1;
    }
    proof {
        assert(out@ =~= v@);
    }
    out
}

/// Copies a list of strings element by element.
pub fn copy_strings(v: &Vec<String>) -> (r: Vec<String>)
    ensures
        r@ == v@,
{
    let n = v.len();
    let mut out: Vec<String> = Vec::new();
    let mut i: usize = 0;
    while i < n
        invariant
            i <= n,
            n == v@.len(),
            out@.len() == i,
            forall|t: int| 0 <= t < i ==> out@[t] == v@[t],
        decreases n - i,
    {
        out.push(v[i].clone());
        i += 1;
    }
    proof {
        assert(out@ =~= v@);
    }
    out
}

/// The tagged union behind every exposed property: absent before the first
/// write, otherwise a string, a sequence of strings, or the service-data map.
pub enum PropertyValue {
    Absent,
    Text(String),
    TextList(Vec<String>),
    DataMap(ServiceData),
}

/// The mathematical shape of a `PropertyValue`.
pub ghost enum PvModel {
    Absent,
    Text(Seq<char>),
    TextList(Seq<String>),
    DataMap(Map<Seq<char>, Seq<u8>>),
}

impl View for PropertyValue {
    type V = PvModel;

    open spec fn view(&self) -> PvModel {
        match self {
            PropertyValue::Absent => PvModel::Absent,
            PropertyValue::Text(s) => PvModel::Text(s@),
            PropertyValue::TextList(v) => PvModel::TextList(v@),
            PropertyValue::DataMap(d) => PvModel::DataMap(d@),
        }
    }
}

impl PropertyValue {
    pub open spec fn wf(&self) -> bool {
        match self {
            PropertyValue::DataMap(d) => d.wf(),
            _ => true,
        }
    }
}

} // verus!
