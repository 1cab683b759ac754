//! Naming rules of the save-record store: how a key becomes a file name, and
//! which directory entries are save records.
use vstd::prelude::*;
use crate::mime::{extension_of, last_segment};
use crate::text::{chars_eq, chars_of, last_index_of};

verus! {

broadcast use vstd::string::group_string_axioms;

/// Whether `s` ends with `p`.
pub open spec fn ends_with(s: Seq<char>, p: Seq<char>) -> bool {
    p.len() <= s.len() && s.subrange(s.len() - p.len(), s.len() as int) == p
}

/// The suffix that save files carry.
pub open spec fn save_suffix() -> Seq<char> {
    ".rpgsave"@
}

/// The file name a save key is stored under: the key itself when it already
/// carries the suffix, else the key with the suffix appended.
pub open spec fn save_file_name_of(key: Seq<char>) -> Seq<char> {
    if ends_with(key, save_suffix()) {
        key
    } else {
        key + save_suffix()
    }
}

/// Whether a directory entry named `name` is a save record: its extension is
/// `rpgsave`.
pub open spec fn is_save_file(name: Seq<char>) -> bool {
    extension_of(name) == Some("rpgsave"@)
}

/// The save records among `names`, in their order.
pub open spec fn save_names(names: Seq<Seq<char>>) -> Seq<Seq<char>>
    decreases names.len(),
{
    if names.len() == 0 {
        Seq::empty()
    } else if is_save_file(names.last()) {
        save_names(names.drop_last()).push(names.last())
    } else {
        save_names(names.drop_last())
    }
}

pub open spec fn strings_view(v: Seq<String>) -> Seq<Seq<char>> {
    v.map_values(|s: String| s@)
}

/// The file name that the save `key` is stored under.
pub fn save_file_name(key: &str) -> (r: String)
    ensures
        r@ == save_file_name_of(key@),
{
    proof {
        reveal_strlit(".rpgsave");
    }
    let k = chars_of(key);
    let n = k.len();
    if n >= 8 {
        let mut tail: Vec<char> = Vec::new();
        let mut i: usize = n - 8;
        while i < n
            invariant
                n == k@.len(),
                n >= 8,
                n - 8 <= i <= n,
                tail@ == k@.subrange(n - 8, i as int),
            decreases n - i,
        {
            tail.push(k[i]);
            i = i + 1;
            assert(tail@ =~= k@.subrange(n - 8, i as int));
        }
        if chars_eq(tail.as_slice(), ".rpgsave") {
            return String::from_str(key);
        }
    }
    String::from_str(key).concat(".rpgsave")
}

/// Whether the directory entry `name` is a save record.
pub fn is_save_file_name(name: &str) -> (r: bool)
    ensures
        r == is_save_file(name@),
{
    let p = chars_of(name);
    match crate::mime::extension(&p) {
        Some(e) => chars_eq(e.as_slice(), "rpgsave"),
        None => false,
    }
}

/// Keeps the names of save records, in their order.
pub fn filter_saves(names: Vec<String>) -> (r: Vec<String>)
    ensures
        strings_view(r@) == save_names(strings_view(names@)),
{
    let mut out: Vec<String> = Vec::new();
    let mut i: usize = 0;
    while i < names.len()
        invariant
            i <= names@.len(),
            strings_view(out@) == save_names(strings_view(names@.subrange(0, i as int))),
        decreases names@.len() - i,
    {
        let ghost prefix = strings_view(names@.subrange(0, i as int + 1));
        assert(prefix.drop_last() =~= strings_view(names@.subrange(0, i as int)));
        assert(prefix.last() == names@[i as int]@);
        if is_save_file_name(names[i].as_str()) {
            let ghost before = out@;
            out.push(names[i].clone());
            assert(strings_view(out@) =~= strings_view(before).push(names@[i as int]@));
        }
        i = i + 1;
    }
    assert(names@.subrange(0, names@.len() as int) =~= names@);
    out
}

/// Why a save operation failed.
pub enum SaveError {
    /// No save is stored under the key.
    NotFound,
    /// The file system refused; the text says how.
    Io(String),
}

impl SaveError {
    /// The text handed back to the caller.
    pub fn message(&self) -> (r: String)
        ensures
            match self {
                SaveError::NotFound => r@ == "Save file not found"@,
                SaveError::Io(m) => r@ == m@,
            },
    {
        match self {
            SaveError::NotFound => String::from_str("Save file not found"),
            SaveError::Io(m) => m.clone(),
        }
    }
}

/// Normalising a key that is already a file name changes nothing, so a name
/// that `list` returned reads, writes and deletes the same file as its key.
pub proof fn lemma_save_file_name_idempotent(key: Seq<char>)
    ensures
        save_file_name_of(save_file_name_of(key)) == save_file_name_of(key),
{
    let k2 = key + save_suffix();
    assert(k2.subrange(k2.len() - save_suffix().len(), k2.len() as int) =~= save_suffix());
}

proof fn lemma_last_index_absent(s: Seq<char>, c: char)
    requires
        forall|t: int| 0 <= t < s.len() ==> s[t] != c,
    ensures
        last_index_of(s, c) == -1,
    decreases s.len(),
{
    if s.len() > 0 {
        lemma_last_index_absent(s.drop_last(), c);
    }
}

proof fn lemma_last_index_at(s: Seq<char>, c: char, j: int)
    requires
        0 <= j < s.len(),
        s[j] == c,
        forall|t: int| j < t < s.len() ==> s[t] != c,
    ensures
        last_index_of(s, c) == j,
    decreases s.len(),
{
    if s.len() - 1 != j {
        lemma_last_index_at(s.drop_last(), c, j);
    }
}

/// A key without `/`, other than the empty key and the bare suffix, is stored
/// under a name that listing recognises as a save record.
pub proof fn lemma_saved_key_is_listed(key: Seq<char>)
    requires
        key.len() > 0,
        key != save_suffix(),
        forall|t: int| 0 <= t < key.len() ==> key[t] != '/',
    ensures
        is_save_file(save_file_name_of(key)),
{
    reveal_strlit(".rpgsave");
    reveal_strlit("rpgsave");
    let suf = save_suffix();
    assert(suf.len() == 8);
    let name = save_file_name_of(key);
    let base: Seq<char> = if ends_with(key, suf) {
        key.subrange(0, key.len() - 8)
    } else {
        key
    };
    assert(name =~= base + suf);
    if ends_with(key, suf) {
        if base.len() == 0 {
            assert(key =~= suf);
        }
    }
    assert(base.len() > 0);
    assert forall|t: int| 0 <= t < name.len() implies name[t] != '/' by {
        if t < base.len() {
            assert(name[t] == key[t]);
        } else {
            assert(name[t] == suf[t - base.len()]);
        }
    }
    lemma_last_index_absent(name, '/');
    assert(last_segment(name) =~= name);
    lemma_last_index_at(name, '.', base.len() as int);
    assert(name.subrange(base.len() + 1 as int, name.len() as int) =~= "rpgsave"@);
}

} // verus!
