use vstd::prelude::*;

verus! {

/// The value held by one table slot, as far as the bridge tells values apart.
pub enum EntryValue {
    Boolean(bool),
    /// A double, carried as the decimal text that reads back to the same double.
    Double(String),
    Text(String),
    /// Any other kind of value the table can hold (raw bytes, arrays, RPCs).
    Unsupported,
}

/// One named slot of the table at one point in time.
pub struct Entry {
    pub name: String,
    pub value: EntryValue,
}

impl Entry {
    pub fn new(name: String, value: EntryValue) -> (r: Entry)
        ensures
            r.name == name,
            r.value == value,
    {
        Entry { name, value }
    }
}

} // verus!
