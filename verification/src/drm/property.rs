//! DRM object properties and blobs (software model).

use vstd::prelude::*;

verus! {

#[derive(Clone, Copy, Debug, PartialEq, Eq, Structural)]
pub enum PropType {
    Range,
    Enum,
    Blob,
    Bitmask,
    Object,
}

#[derive(Clone, Debug)]
pub struct Property {
    pub id: u32,
    pub name: String,
    pub prop_type: PropType,
    /// Range bounds `[min, max]`, or the enum's values.
    pub values: Vec<u64>,
}

#[derive(Clone, Debug)]
pub struct PropBlob {
    pub id: u32,
    pub data: Vec<u8>,
}

#[derive(Clone, Copy, Debug, PartialEq, Eq, Structural)]
pub struct ObjectPropValue {
    pub prop_id: u32,
    pub value: u64,
}

/// The id after `id`: wraps past `u32::MAX` to 1, never 0.
pub open spec fn spec_next_prop_id(id: u32) -> u32 {
    if id == u32::MAX {
        1
    } else {
        (id + 1) as u32
    }
}

/// The value of the first entry for (`object_id`, `prop_id`) among entries `i..`.
pub open spec fn spec_value_from(values: Seq<(u32, u32, u64)>, object_id: u32, prop_id: u32, i: int) -> Option<
    u64,
>
    decreases values.len() - i,
{
    if i < 0 || i >= values.len() {
        None
    } else if values[i].0 == object_id && values[i].1 == prop_id {
        Some(values[i].2)
    } else {
        spec_value_from(values, object_id, prop_id, i + 1)
    }
}

/// Index of the first blob with `id` among blobs `i..`.
pub open spec fn spec_blob_from(blobs: Seq<PropBlob>, id: u32, i: int) -> Option<int>
    decreases blobs.len() - i,
{
    if i < 0 || i >= blobs.len() {
        None
    } else if blobs[i].id == id {
        Some(i)
    } else {
        spec_blob_from(blobs, id, i + 1)
    }
}

proof fn lemma_value_skip(values: Seq<(u32, u32, u64)>, o: u32, p: u32, k: int, j: int)
    requires
        0 <= k <= j <= values.len(),
        forall|q: int| k <= q < j ==> !((#[trigger] values[q]).0 == o && values[q].1 == p),
    ensures
        spec_value_from(values, o, p, k) == spec_value_from(values, o, p, j),
    decreases j - k,
{
    if k < j {
        lemma_value_skip(values, o, p, k + 1, j);
    }
}

proof fn lemma_value_agree(a: Seq<(u32, u32, u64)>, b: Seq<(u32, u32, u64)>, o: u32, p: u32, j: int)
    requires
        0 <= j,
        a.len() == b.len(),
        forall|q: int|
            j <= q < a.len() ==> (((#[trigger] a[q]).0 == o && a[q].1 == p) == (b[q].0 == o
                && b[q].1 == p)),
        forall|q: int| j <= q < a.len() && (#[trigger] a[q]).0 == o && a[q].1 == p ==> a[q].2 == b[q].2,
    ensures
        spec_value_from(a, o, p, j) == spec_value_from(b, o, p, j),
    decreases a.len() - j,
{
    if j < a.len() {
        lemma_value_agree(a, b, o, p, j + 1);
    }
}

proof fn lemma_value_push(values: Seq<(u32, u32, u64)>, e: (u32, u32, u64), o: u32, p: u32, j: int)
    requires
        0 <= j <= values.len(),
    ensures
        spec_value_from(values.push(e), o, p, j) == match spec_value_from(values, o, p, j) {
            Some(v) => Some(v),
            None => if e.0 == o && e.1 == p {
                Some(e.2)
            } else {
                None
            },
        },
    decreases values.len() - j,
{
    let pushed = values.push(e);
    if j < values.len() {
        assert(pushed[j] == values[j]);
        lemma_value_push(values, e, o, p, j + 1);
    } else {
        assert(pushed[j] == e);
        assert(spec_value_from(pushed, o, p, j + 1) is None);
    }
}

#[derive(Clone, Debug)]
pub struct PropertyStore {
    next_prop: u32,
    next_blob: u32,
    props: Vec<Property>,
    blobs: Vec<PropBlob>,
    /// (object id, property id, value) entries.
    values: Vec<(u32, u32, u64)>,
}

impl PropertyStore {
    pub closed spec fn props(&self) -> Seq<Property> {
        self.props@
    }

    pub closed spec fn blobs(&self) -> Seq<PropBlob> {
        self.blobs@
    }

    pub closed spec fn next_prop_id(&self) -> u32 {
        self.next_prop
    }

    pub closed spec fn next_blob_id(&self) -> u32 {
        self.next_blob
    }

    /// The value an object holds for a property.
    pub closed spec fn value(&self, object_id: u32, prop_id: u32) -> Option<u64> {
        spec_value_from(self.values@, object_id, prop_id, 0)
    }

    pub fn new() -> (s: Self)
        ensures
            s.props() == Seq::<Property>::empty(),
            s.blobs() == Seq::<PropBlob>::empty(),
            s.next_prop_id() == 1,
            s.next_blob_id() == 1,
            forall|o: u32, p: u32| #[trigger] s.value(o, p) is None,
    {
        PropertyStore {
            next_prop: 1,
            next_blob: 1,
            props: Vec::new(),
            blobs: Vec::new(),
            values: Vec::new(),
        }
    }

    /// Registers a property under the next property id and returns that id.
    pub fn create_prop(&mut self, name: &str, prop_type: PropType, values: Vec<u64>) -> (id: u32)
        ensures
            id == old(self).next_prop_id(),
            final(self).next_prop_id() == spec_next_prop_id(old(self).next_prop_id()),
            final(self).props().len() == old(self).props().len() + 1,
            final(self).props().drop_last() == old(self).props(),
            final(self).props().last().id == id,
            final(self).props().last().name@ == name@,
            final(self).props().last().prop_type == prop_type,
            final(self).props().last().values@ == values@,
            final(self).blobs() == old(self).blobs(),
            final(self).next_blob_id() == old(self).next_blob_id(),
            forall|o: u32, p: u32| #[trigger] final(self).value(o, p) == old(self).value(o, p),
    {
        let id = self.next_prop;
        self.next_prop = if self.next_prop == u32::MAX {
            1
        } else {
            self.next_prop + 1
        };
        self.props.push(Property { id, name: String::from_str(name), prop_type, values });
        assert(self.props@.drop_last() =~= old(self).props@);
        id
    }

    /// Stores a blob under the next blob id and returns that id.
    pub fn create_blob(&mut self, data: Vec<u8>) -> (id: u32)
        ensures
            id == old(self).next_blob_id(),
            final(self).next_blob_id() == spec_next_prop_id(old(self).next_blob_id()),
            final(self).blobs().len() == old(self).blobs().len() + 1,
            final(self).blobs().drop_last() == old(self).blobs(),
            final(self).blobs().last().id == id,
            final(self).blobs().last().data@ == data@,
            final(self).props() == old(self).props(),
            final(self).next_prop_id() == old(self).next_prop_id(),
            forall|o: u32, p: u32| #[trigger] final(self).value(o, p) == old(self).value(o, p),
    {
        let id = self.next_blob;
        self.next_blob = if self.next_blob == u32::MAX {
            1
        } else {
            self.next_blob + 1
        };
        self.blobs.push(PropBlob { id, data });
        assert(self.blobs@.drop_last() =~= old(self).blobs@);
        id
    }

    /// The first blob with `id`.
    pub fn blob(&self, id: u32) -> (r: Option<&PropBlob>)
        ensures
            match spec_blob_from(self.blobs(), id, 0) {
                Some(i) => r == Some(&self.blobs()[i]),
                None => r is None,
            },
    {
        let mut i: usize = 0;
        while i < self.blobs.len()
            invariant
                i <= self.blobs@.len(),
                spec_blob_from(self.blobs@, id, 0) == spec_blob_from(self.blobs@, id, i as int),
            decreases self.blobs@.len() - i,
        {
            if self.blobs[i].id == id {
                return Some(&self.blobs[i]);
            }
            i = i + 1;
        }
        None
    }

    /// Sets the value of a property on an object; every other value is kept.
    pub fn set(&mut self, object_id: u32, prop_id: u32, value: u64)
        ensures
            final(self).value(object_id, prop_id) == Some(value),
            forall|o: u32, p: u32|
                !(o == object_id && p == prop_id) ==> #[trigger] final(self).value(o, p) == old(
                    self,
                ).value(o, p),
            final(self).props() == old(self).props(),
            final(self).blobs() == old(self).blobs(),
            final(self).next_prop_id() == old(self).next_prop_id(),
            final(self).next_blob_id() == old(self).next_blob_id(),
    {
        let ghost before = self.values@;
        let mut i: usize = 0;
        while i < self.values.len()
            invariant
                i <= self.values@.len(),
                self.values@ == before,
                *self == *old(self),
                forall|q: int|
                    0 <= q < i ==> !((#[trigger] before[q]).0 == object_id && before[q].1 == prop_id),
            decreases self.values@.len() - i,
        {
            let entry = self.values[i];
            if entry.0 == object_id && entry.1 == prop_id {
                self.values[i] = (object_id, prop_id, value);
                proof {
                    let after = self.values@;
                    lemma_value_skip(after, object_id, prop_id, 0, i as int);
                    assert forall|o: u32, p: u32|
                        !(o == object_id && p == prop_id) implies #[trigger] spec_value_from(
                        after,
                        o,
                        p,
                        0,
                    ) == spec_value_from(before, o, p, 0) by {
                        lemma_value_agree(after, before, o, p, 0);
                    }
                }
                return;
            }
            i = i + 1;
        }
        self.values.push((object_id, prop_id, value));
        proof {
            lemma_value_skip(before, object_id, prop_id, 0, before.len() as int);
            assert forall|o: u32, p: u32| true implies #[trigger] spec_value_from(
                before.push((object_id, prop_id, value)),
                o,
                p,
                0,
            ) == match spec_value_from(before, o, p, 0) {
                Some(v) => Some(v),
                None => if object_id == o && prop_id == p {
                    Some(value)
                } else {
                    None
                },
            } by {
                lemma_value_push(before, (object_id, prop_id, value), o, p, 0);
            }
        }
    }

    /// The value of a property on an object, if set.
    pub fn get(&self, object_id: u32, prop_id: u32) -> (r: Option<u64>)
        ensures
            r == self.value(object_id, prop_id),
    {
        let mut i: usize = 0;
        while i < self.values.len()
            invariant
                i <= self.values@.len(),
                spec_value_from(self.values@, object_id, prop_id, 0) == spec_value_from(
                    self.values@,
                    object_id,
                    prop_id,
                    i as int,
                ),
            decreases self.values@.len() - i,
        {
            let entry = self.values[i];
            if entry.0 == object_id && entry.1 == prop_id {
                return Some(entry.2);
            }
            i = i + 1;
        }
        None
    }

    pub fn prop_count(&self) -> (n: usize)
        ensures
            n == self.props().len(),
    {
        self.props.len()
    }

    pub fn blob_count(&self) -> (n: usize)
        ensures
            n == self.blobs().len(),
    {
        self.blobs.len()
    }
}

/// Store law: a property value reads back as last set, and setting one
/// (object, property) pair leaves every other pair's value unchanged.
pub proof fn property_get_returns_last_set(
    before: PropertyStore,
    after: PropertyStore,
    object_id: u32,
    prop_id: u32,
    value: u64,
    other_object: u32,
    other_prop: u32,
)
    requires
        after.value(object_id, prop_id) == Some(value),
        forall|o: u32, p: u32|
            !(o == object_id && p == prop_id) ==> #[trigger] after.value(o, p) == before.value(o, p),
    ensures
        after.value(object_id, prop_id) == Some(value),
        !(other_object == object_id && other_prop == prop_id) ==> after.value(other_object, other_prop)
            == before.value(other_object, other_prop),
{
}

} // verus!
