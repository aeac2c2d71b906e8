//! Checks that tell, before anything is generated or mapped, whether the
//! descriptors are well formed.

use vstd::prelude::*;
use crate::decimal::{parse_int, spells_integer};
use crate::descriptor::{Cardinality, EnumDescriptor, Message, Schema};

verus! {

impl EnumDescriptor {
    /// Whether no two variants share a name and no name reads as an integer.
    pub fn is_wf(&self) -> (ok: bool)
        ensures
            ok == self.wf(),
    {
        let mut i: usize = 0;
        while i < self.variants.len()
            invariant
                i <= self.variants.len(),
                forall|a: int, b: int|
                    0 <= a < b < i ==> self.variants@[a].name@ != self.variants@[b].name@,
                forall|a: int| 0 <= a < i ==> parse_int(#[trigger] self.variants@[a].name@) is None,
            decreases self.variants.len() - i,
        {
            if spells_integer(self.variants[i].name.as_str()) {
                assert(parse_int(self.variants@[i as int].name@) is Some);
                return false;
            }
            let mut j: usize = 0;
            while j < i
                invariant
                    j <= i < self.variants.len(),
                    forall|a: int|
                        0 <= a < j ==> self.variants@[a].name@ != self.variants@[i as int].name@,
                decreases i - j,
            {
                if self.variants[j].name == self.variants[i].name {
                    assert(self.variants@[j as int].name@ == self.variants@[i as int].name@);
                    return false;
                }
                j = j + 1;
            }
            i = i + 1;
        }
        true
    }
}

impl Message {
    /// Whether the two fields numbered `i` and `j` can be told apart by every
    /// JSON key.
    pub open spec fn distinct(&self, i: int, j: int) -> bool {
        &&& self.fields@[i].json_name@ != self.fields@[j].json_name@
        &&& self.fields@[i].json_name@ != self.fields@[j].name@
        &&& self.fields@[j].json_name@ != self.fields@[i].name@
        &&& self.fields@[i].name@ != self.fields@[j].name@
    }

    /// Whether no JSON key names two fields, and every member of a oneof
    /// group is a singular field that is present only when it was set.
    pub fn is_wf(&self) -> (ok: bool)
        ensures
            ok == self.wf(),
    {
        let mut i: usize = 0;
        while i < self.fields.len()
            invariant
                i <= self.fields.len(),
                forall|a: int, b: int| 0 <= a < b < i ==> self.distinct(a, b),
                forall|a: int|
                    0 <= a < i && (#[trigger] self.fields@[a]).oneof is Some ==> {
                        &&& self.fields@[a].cardinality == Cardinality::Singular
                        &&& !self.fields@[a].elide_default
                    },
            decreases self.fields.len() - i,
        {
            let member = match self.fields[i].oneof {
                Some(_) => true,
                None => false,
            };
            if member && (self.fields[i].cardinality != Cardinality::Singular
                || self.fields[i].elide_default) {
                assert(self.fields@[i as int].oneof is Some);
                return false;
            }
            let mut j: usize = 0;
            while j < i
                invariant
                    j <= i < self.fields.len(),
                    forall|a: int| 0 <= a < j ==> self.distinct(a, i as int),
                decreases i - j,
            {
                if self.fields[j].json_name == self.fields[i].json_name || self.fields[j].json_name
                    == self.fields[i].name || self.fields[i].json_name == self.fields[j].name
                    || self.fields[j].name == self.fields[i].name {
                    assert(!self.distinct(j as int, i as int));
                    return false;
                }
                j = j + 1;
            }
            i = i + 1;
        }
        assert forall|a: int, b: int|
            0 <= a < self.fields@.len() && 0 <= b < self.fields@.len() && a != b implies {
            &&& self.fields@[a].json_name@ != self.fields@[b].json_name@
            &&& self.fields@[a].json_name@ != self.fields@[b].name@
            &&& self.fields@[a].name@ != self.fields@[b].name@
        } by {
            if a < b {
                assert(self.distinct(a, b));
            } else {
                assert(self.distinct(b, a));
            }
        }
        true
    }
}

impl Schema {
    /// Whether every enum and every message of the schema is well formed.
    pub fn is_wf(&self) -> (ok: bool)
        ensures
            ok == self.wf(),
    {
        let mut e: usize = 0;
        while e < self.enums.len()
            invariant
                e <= self.enums.len(),
                forall|k: int| 0 <= k < e ==> (#[trigger] self.enums@[k]).wf(),
            decreases self.enums.len() - e,
        {
            if !self.enums[e].is_wf() {
                return false;
            }
            e = e + 1;
        }
        let mut m: usize = 0;
        while m < self.messages.len()
            invariant
                m <= self.messages.len(),
                forall|k: int| 0 <= k < self.enums@.len() ==> (#[trigger] self.enums@[k]).wf(),
                forall|k: int| 0 <= k < m ==> (#[trigger] self.messages@[k]).wf(),
            decreases self.messages.len() - m,
        {
            if !self.messages[m].is_wf() {
                return false;
            }
            m = m + 1;
        }
        true
    }
}

} // verus!
