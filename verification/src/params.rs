//! The parameter model: from the named clinical dials to the optical
//! uniforms that drive the lens shader.

use vstd::prelude::*;
use crate::ratio::{Q, Ratio};

verus! {

/// One thousandth of a dial step: a dial at 50 is held as `50 * DIAL_UNIT`.
pub const DIAL_UNIT: i32 = 1000;

/// Numerator of the empirical factor that turns dioptres into blur strength.
pub const DIOPTRES_SCALING_NUM: i128 = 332_763_369_417_523;

/// Denominator of the same factor.
pub const DIOPTRES_SCALING_DEN: i128 = 1_000_000_000_000_000;

/// A dynamically typed parameter. A number is a dial position in
/// thousandths of a step.
#[derive(Clone, Copy, Debug, PartialEq, Eq)]
pub enum Value {
    Bool(bool),
    Number(i32),
}

/// A named parameter.
#[derive(Clone, Debug)]
pub struct Entry {
    pub name: String,
    pub value: Value,
}

/// The mapping that a list of entries stands for: a later entry replaces an
/// earlier one of the same name.
pub open spec fn entries_map(s: Seq<Entry>) -> Map<Seq<char>, Value>
    decreases s.len(),
{
    if s.len() == 0 {
        Map::empty()
    } else {
        entries_map(s.drop_last()).insert(s.last().name@, s.last().value)
    }
}

/// The parameters of one frame, by name.
#[derive(Clone, Debug)]
pub struct ValueMap {
    entries: Vec<Entry>,
}

impl View for ValueMap {
    type V = Map<Seq<char>, Value>;

    closed spec fn view(&self) -> Map<Seq<char>, Value> {
        entries_map(self.entries@)
    }
}

impl ValueMap {
    /// The empty mapping.
    pub fn new() -> (r: ValueMap)
        ensures
            r@ == Map::<Seq<char>, Value>::empty(),
    {
        ValueMap { entries: Vec::new() }
    }

    /// Binds `name` to `value`, replacing an earlier binding.
    pub fn insert(&mut self, name: &str, value: Value)
        ensures
            final(self)@ == old(self)@.insert(name@, value),
    {
        let ghost before = self.entries@;
        self.entries.push(Entry { name: name.to_owned(), value });
        proof {
            assert(self.entries@.drop_last() =~= before);
        }
    }

    /// The value bound to `name`, if any.
    pub fn get(&self, name: &str) -> (r: Option<Value>)
        ensures
            r == (if self@.contains_key(name@) {
                Some(self@[name@])
            } else {
                None
            }),
    {
        let key = name.to_owned();
        let mut found: Option<Value> = None;
        let mut i: usize = 0;
        while i < self.entries.len()
            invariant
                i <= self.entries.len(),
                key@ == name@,
                found == (if entries_map(self.entries@.take(i as int)).contains_key(name@) {
                    Some(entries_map(self.entries@.take(i as int))[name@])
                } else {
                    None
                }),
            decreases self.entries.len() - i,
        {
            proof {
                assert(self.entries@.take(i as int + 1).drop_last() =~= self.entries@.take(
                    i as int,
                ));
            }
            if self.entries[i].name == key {
                found = Some(self.entries[i].value);
            }
            i += 1;
        }
        proof {
            assert(self.entries@.take(i as int) =~= self.entries@);
        }
        found
    }
}

} // verus!
