//! Key/value field lists: the flat string maps that a device record carries,
//! held in arrival order.

use vstd::prelude::*;
use vstd::string::StringExecFns;

verus! {

/// A field list as a mathematical value: pairs of key and value.
pub type FieldSeq = Seq<(Seq<char>, Seq<char>)>;

/// The value that a field list gives to `key`: that of the last pair whose
/// key is `key`, and the empty string where no pair has it.
pub open spec fn field_value(entries: FieldSeq, key: Seq<char>) -> Seq<char>
    decreases entries.len(),
{
    if entries.len() == 0 {
        Seq::empty()
    } else if entries.last().0 == key {
        entries.last().1
    } else {
        field_value(entries.drop_last(), key)
    }
}

/// Whether some pair of the list has the key `key`.
pub open spec fn has_key(entries: FieldSeq, key: Seq<char>) -> bool {
    exists|i: int| 0 <= i < entries.len() && (#[trigger] entries[i]).0 == key
}

/// Whether every pair of `fields` holds the value that `entries` gives to
/// its key.
pub open spec fn filled_from(fields: FieldSeq, entries: FieldSeq) -> bool {
    forall|i: int|
        0 <= i < fields.len() ==> (#[trigger] fields[i]).1 == field_value(entries, fields[i].0)
}

/// Whether every value of `fields` is the empty string.
pub open spec fn all_empty(fields: FieldSeq) -> bool {
    forall|i: int| 0 <= i < fields.len() ==> (#[trigger] fields[i]).1.len() == 0
}

/// Looks `key` up in a field list. A key that occurs more than once has the
/// value of its last occurrence; a key that does not occur has the empty string.
pub fn lookup(entries: &Vec<(String, String)>, key: &str) -> (value: String)
    ensures
        value@ == field_value(entries.deep_view(), key@),
{
    let wanted = String::from_str(key);
    let mut i: usize = entries.len();
    assert(entries.deep_view().take(i as int) =~= entries.deep_view());
    while i > 0
        invariant
            i <= entries.len(),
            wanted@ == key@,
            field_value(entries.deep_view(), key@) == field_value(
                entries.deep_view().take(i as int),
                key@,
            ),
        decreases i,
    {
        let ghost prefix = entries.deep_view().take(i as int);
        assert(prefix.last() == entries.deep_view()[i - 1]);
        assert(prefix.drop_last() =~= entries.deep_view().take(i - 1));
        i = i - 1;
        if entries[i].0 == wanted {
            return entries[i].1.clone();
        }
    }
    assert(entries.deep_view().take(0).len() == 0);
    String::new()
}

/// A key that no pair holds has the empty value.
pub proof fn lemma_absent_key_is_empty(entries: FieldSeq, key: Seq<char>)
    requires
        !has_key(entries, key),
    ensures
        field_value(entries, key).len() == 0,
    decreases entries.len(),
{
    if entries.len() > 0 {
        assert(entries[entries.len() - 1].0 != key);
        assert forall|i: int| 0 <= i < entries.drop_last().len() implies (
        #[trigger] entries.drop_last()[i]).0 != key by {
            assert(entries.drop_last()[i] == entries[i]);
        }
        lemma_absent_key_is_empty(entries.drop_last(), key);
    }
}

} // verus!
