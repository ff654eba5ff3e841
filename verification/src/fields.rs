//! The typed metadata fields attached to a level record, as this crate reads
//! them: each field is an identifier with a typed value, and readers look a
//! field up by identifier and then match on the value's type. The level file
//! loader fills these in; the logic here only consumes them.

use vstd::prelude::*;

use crate::util::str_eq;

verus! {

/// A typed field value. Only the types the core reads are represented; a
/// text field may be present but empty, which readers must treat as its own
/// error case.
#[derive(Clone, PartialEq, Eq, Debug)]
pub enum FieldValue {
    Bool(bool),
    Str(Option<String>),
}

/// One typed field of a level record.
#[derive(Clone, PartialEq, Eq, Debug)]
pub struct FieldInstance {
    pub identifier: String,
    pub value: FieldValue,
}

/// The index of the first field at or after `from` whose identifier reads
/// `ident`, or the number of fields when there is none.
pub open spec fn spec_field_index(fields: Seq<FieldInstance>, ident: Seq<char>, from: int) -> int
    decreases fields.len() - from,
{
    if 0 <= from < fields.len() {
        if fields[from].identifier@ == ident {
            from
        } else {
            spec_field_index(fields, ident, from + 1)
        }
    } else {
        fields.len() as int
    }
}

proof fn lemma_field_index(fields: Seq<FieldInstance>, ident: Seq<char>, from: int, i: int)
    requires
        0 <= from <= i <= fields.len(),
        forall|j: int| from <= j < i ==> fields[j].identifier@ != ident,
        i < fields.len() ==> fields[i].identifier@ == ident,
    ensures
        i < fields.len() ==> spec_field_index(fields, ident, from) == i,
        i == fields.len() ==> spec_field_index(fields, ident, from) == fields.len(),
    decreases i - from,
{
    if from < i {
        lemma_field_index(fields, ident, from + 1, i);
    }
}

/// Looks a field up by identifier: the first field so named, or nothing
/// when no field carries the identifier.
pub fn find_field<'a>(fields: &'a Vec<FieldInstance>, ident: &str) -> (found: Option<
    &'a FieldInstance,
>)
    ensures
        ({
            let idx = spec_field_index(fields@, ident@, 0);
            match found {
                Some(f) => idx < fields@.len() && *f == fields@[idx],
                None => idx == fields@.len(),
            }
        }),
{
    let mut i: usize = 0;
    while i < fields.len()
        invariant
            0 <= i <= fields@.len(),
            forall|j: int| 0 <= j < i ==> fields@[j].identifier@ != ident@,
        decreases fields@.len() - i,
    {
        if str_eq(fields[i].identifier.as_str(), ident) {
            proof {
                lemma_field_index(fields@, ident@, 0, i as int);
            }
            return Some(&fields[i]);
        }
        i = i + 1;
    }
    proof {
        lemma_field_index(fields@, ident@, 0, fields@.len() as int);
    }
    None
}

} // verus!
