//! Remembers the last value uploaded to each uniform slot, so that an upload of the same value
//! can be skipped.
use crate::uniforms::{is_comparable, same_value, UniformValue};
use vstd::prelude::*;

verus! {

/// The cache after `value` was offered for slot `location`: grown with empty entries up to the
/// slot, which then holds `value`, or nothing if the value cannot be compared.
pub open spec fn stored_after(values: Seq<Option<UniformValue>>, location: int, value: UniformValue) -> Seq<
    Option<UniformValue>,
> {
    let grown = if values.len() <= location {
        values + Seq::new((location + 1 - values.len()) as nat, |i: int| None::<UniformValue>)
    } else {
        values
    };
    grown.update(location, if is_comparable(value) { Some(value) } else { None })
}

/// Whether the cache already holds `value` for slot `location`.
pub open spec fn holds_same(values: Seq<Option<UniformValue>>, location: int, value: UniformValue) -> bool {
    &&& location < values.len()
    &&& values[location] matches Some(c)
    &&& is_comparable(value)
    &&& same_value(c, value)
}

/// The last value uploaded to each uniform slot of a render target.
pub struct UniformsStorage {
    values: Vec<Option<UniformValue>>,
}

impl View for UniformsStorage {
    type V = Seq<Option<UniformValue>>;

    closed spec fn view(&self) -> Self::V {
        self.values@
    }
}

impl UniformsStorage {
    /// An empty cache.
    pub fn new() -> (r: UniformsStorage)
        ensures
            r@ == Seq::<Option<UniformValue>>::empty(),
    {
        UniformsStorage { values: Vec::new() }
    }

    /// Compares the value last stored for `uniform_location` with `value`, stores `value`, and
    /// returns `true` if the two were equal, that is, if the upload can be skipped. A slot used
    /// for the first time, a value of another kind and a texture binding always count as changed.
    pub fn compare_and_store(&mut self, uniform_location: u32, value: &UniformValue) -> (r: bool)
        ensures
            r == holds_same(old(self)@, uniform_location as int, *value),
            final(self)@ == stored_after(old(self)@, uniform_location as int, *value),
    {
        let location = uniform_location as usize;
        let ghost start = self.values@;
        let ghost grown = if start.len() <= location {
            start + Seq::new((location + 1 - start.len()) as nat, |i: int| None::<UniformValue>)
        } else {
            start
        };
        while self.values.len() <= location
            invariant
                location == uniform_location as usize,
                start.len() <= self.values@.len(),
                self.values@.len() <= grown.len(),
                self.values@ == grown.subrange(0, self.values@.len() as int),
                grown.len() == if start.len() <= location { location + 1 } else { start.len() as int },
                grown.subrange(0, start.len() as int) == start,
                forall|i: int| start.len() <= i < grown.len() ==> grown[i] is None,
            decreases location + 1 - self.values@.len(),
        {
            let ghost n: int = self.values@.len() as int;
            self.values.push(None);
            assert(self.values@ =~= grown.subrange(0, n + 1));
        }
        assert(self.values@ =~= grown);
        let unchanged = match &self.values[location] {
            Some(previous) => is_comparable_value(value) && previous.same_as(value),
            None => false,
        };
        let entry = if is_comparable_value(value) {
            Some(*value)
        } else {
            None
        };
        self.values.set(location, entry);
        unchanged
    }
}

fn is_comparable_value(value: &UniformValue) -> (r: bool)
    ensures
        r == is_comparable(*value),
{
    match value {
        UniformValue::Texture(_) => false,
        _ => true,
    }
}

/// Offering a comparable value twice in a row for one slot: the first offer reports a change
/// unless the slot already held that value, and the second reports none. Offering a different
/// value next reports a change again.
pub proof fn lemma_compare_and_store_twice(
    values: Seq<Option<UniformValue>>,
    location: int,
    v: UniformValue,
    v2: UniformValue,
)
    requires
        0 <= location,
        is_comparable(v),
    ensures
        (location >= values.len() || values[location] is None) ==> !holds_same(values, location, v),
        holds_same(stored_after(values, location, v), location, v),
        !same_value(v, v2) ==> !holds_same(stored_after(values, location, v), location, v2),
{
    let after = stored_after(values, location, v);
    assert(after[location] == Some(v));
    if !same_value(v, v2) && holds_same(after, location, v2) {
        assert(same_value(v, v2));
    }
}

} // verus!
