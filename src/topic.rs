use crate::entry::EntryValue;
use vstd::prelude::*;

verus! {

/// Characters that never reach a topic: spaces and path separators.
pub open spec fn is_dropped_char(c: char) -> bool {
    c == ' ' || c == '/'
}

/// The topic of an entry name: the name with every dropped character removed.
pub open spec fn spec_topic(name: Seq<char>) -> Seq<char>
    decreases name.len(),
{
    if name.len() == 0 {
        Seq::empty()
    } else if is_dropped_char(name.last()) {
        spec_topic(name.drop_last())
    } else {
        spec_topic(name.drop_last()).push(name.last())
    }
}

/// What is published for a value: the decimal text of a double, nothing otherwise.
pub open spec fn spec_payload(v: EntryValue) -> Option<Seq<char>> {
    match v {
        EntryValue::Double(text) => Some(text@),
        _ => None,
    }
}

/// Relies on std's `String::push`: it appends the character at the end.
pub assume_specification[ String::push ](s: &mut String, ch: char)
    ensures
        final(s)@ == old(s)@.push(ch),
;

/// Maps an entry name to its topic by removing every space and slash.
pub fn topic_of(name: &str) -> (r: String)
    ensures
        r@ == spec_topic(name@),
{
    let n = name.unicode_len();
    let mut out = String::new();
    let mut i: usize = 0;
    while i < n
        invariant
            n == name@.len(),
            i <= n,
            out@ == spec_topic(name@.take(i as int)),
        decreases n - i,
    {
        let c = name.get_char(i);
        assert(name@.take(i + 1).drop_last() == name@.take(i as int));
        assert(name@.take(i + 1).last() == c);
        if c != ' ' && c != '/' {
            out.push(c);
        }
        i = i + 1;
    }
    assert(name@.take(n as int) == name@);
    out
}

/// The payload published for a value: present for a double only.
pub fn payload_of(value: &EntryValue) -> (r: Option<String>)
    ensures
        r.is_some() == value is Double,
        r.is_some() ==> spec_payload(*value) == Some(r.unwrap()@),
{
    match value {
        EntryValue::Double(text) => Some(text.clone()),
        _ => None,
    }
}

/// A topic holds no dropped character.
pub proof fn lemma_topic_has_no_dropped_char(name: Seq<char>)
    ensures
        forall|i: int| 0 <= i < spec_topic(name).len() ==> !is_dropped_char(#[trigger] spec_topic(name)[i]),
    decreases name.len(),
{
    if name.len() > 0 {
        lemma_topic_has_no_dropped_char(name.drop_last());
        let rest = spec_topic(name.drop_last());
        if !is_dropped_char(name.last()) {
            assert forall|i: int| 0 <= i < spec_topic(name).len() implies !is_dropped_char(
                #[trigger] spec_topic(name)[i],
            ) by {
                if i < rest.len() {
                    assert(spec_topic(name)[i] == rest[i]);
                }
            }
        }
    }
}

/// Mapping is a function of the name alone, and mapping a topic again leaves
/// it as it is.
pub proof fn lemma_topic_idempotent(name: Seq<char>)
    ensures
        spec_topic(spec_topic(name)) == spec_topic(name),
    decreases name.len(),
{
    if name.len() > 0 {
        lemma_topic_idempotent(name.drop_last());
        let rest = spec_topic(name.drop_last());
        if !is_dropped_char(name.last()) {
            assert(rest.push(name.last()).drop_last() == rest);
        }
    }
}

} // verus!
