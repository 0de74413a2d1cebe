//! The journal of thoughts: what the philosophers published, in the order in
//! which it arrived, closed by an entry that marks the end.
use vstd::prelude::*;
use vstd::string::StringExecFns;

verus! {

/// The entry that closes the journal.
pub open spec fn closing_words() -> Seq<char> {
    "Done"@
}

/// The number of entries before the first closing entry, or of all entries
/// where none closes the journal.
pub open spec fn open_len(entries: Seq<String>) -> nat
    decreases entries.len(),
{
    if entries.len() == 0 || entries[0]@ == closing_words() {
        0
    } else {
        1 + open_len(entries.drop_first())
    }
}

/// The entry that closes the journal.
pub fn closing_entry() -> (entry: String)
    ensures
        entry@ == closing_words(),
{
    String::from_str("Done")
}

/// Whether `entry` closes the journal.
pub fn is_closing(entry: &String) -> (closing: bool)
    ensures
        closing == (entry@ == closing_words()),
{
    let mark = String::from_str("Done");
    *entry == mark
}

/// The first `open_len` entries are thoughts, and the entry after them, if
/// there is one, closes the journal.
pub proof fn lemma_open_len(entries: Seq<String>)
    ensures
        open_len(entries) <= entries.len(),
        forall|i: int| 0 <= i < open_len(entries) ==> (#[trigger] entries[i])@ != closing_words(),
        open_len(entries) < entries.len() ==> entries[open_len(entries) as int]@
            == closing_words(),
    decreases entries.len(),
{
    if entries.len() == 0 || entries[0]@ == closing_words() {
    } else {
        let rest = entries.drop_first();
        lemma_open_len(rest);
        assert forall|i: int| 0 <= i < open_len(entries) implies (#[trigger] entries[i])@
            != closing_words() by {
            if i > 0 {
                assert(entries[i] == rest[i - 1]);
            }
        }
        if open_len(entries) < entries.len() {
            assert(entries[open_len(entries) as int] == rest[open_len(rest) as int]);
        }
    }
}

/// What is printed of a journal. Where printing is wanted: every thought
/// that arrived before the closing entry, once, in the order of arrival.
/// Where it is not: nothing.
pub fn printed(entries: &Vec<String>, wanted: bool) -> (out: Vec<String>)
    ensures
        !wanted ==> out@.len() == 0,
        wanted ==> out@.len() == open_len(entries@),
        forall|i: int| 0 <= i < out@.len() ==> (#[trigger] out@[i])@ == entries@[i]@,
{
    let mut out: Vec<String> = Vec::new();
    if !wanted {
        return out;
    }
    proof {
        lemma_open_len(entries@);
    }
    let mut i: usize = 0;
    while i < entries.len() && !is_closing(&entries[i])
        invariant
            i <= entries@.len(),
            i <= open_len(entries@) <= entries@.len(),
            out@.len() == i,
            forall|k: int| 0 <= k < i ==> (#[trigger] out@[k])@ == entries@[k]@,
            forall|k: int|
                0 <= k < open_len(entries@) ==> (#[trigger] entries@[k])@ != closing_words(),
            open_len(entries@) < entries@.len() ==> entries@[open_len(entries@) as int]@
                == closing_words(),
        decreases entries@.len() - i,
    {
        proof {
            if i as nat == open_len(entries@) {
                assert(entries@[i as int]@ == closing_words());
            }
        }
        out.push(entries[i].clone());
        i = i + 1;
    }
    proof {
        if (i as nat) < open_len(entries@) {
            assert(entries@[i as int]@ != closing_words());
        }
    }
    out
}

} // verus!
