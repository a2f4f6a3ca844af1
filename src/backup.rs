//! Numbered backups: `data.json` is copied aside as `data.000.json`, or the
//! first of `data.001.json`, `data.002.json`, ... that is free.
use vstd::prelude::*;

use crate::format::ConvertError;
use crate::path::{get_extension, has_no_separator, lowered_extension, path_exists};

verus! {

/// How many numbered backup slots there are: `000` to `999`.
pub const BACKUP_SLOTS: u32 = 1000;

/// The path text `p` with its extension replaced by `e` (or `e` appended,
/// where `p` has none), as `std::path::Path::with_extension` builds it.
pub uninterp spec fn path_with_extension(p: Seq<char>, e: Seq<char>) -> Seq<char>;

/// Relies on `std::path::Path::with_extension`: the path with its extension
/// set to `e`, which depends on the two texts alone. It panics where `e`
/// holds a path separator, which `requires` leaves out. The result comes
/// from UTF-8 text, so the conversion to `String` is lossless.
#[verifier::external_body]
fn replace_extension(p: &str, e: &str) -> (r: String)
    requires
        has_no_separator(e@),
    ensures
        r@ == path_with_extension(p@, e@),
{
    std::path::Path::new(p).with_extension(e).to_string_lossy().into_owned()
}

/// The decimal digit for `d`, which is below ten.
pub open spec fn digit_char(d: int) -> char {
    seq!['0', '1', '2', '3', '4', '5', '6', '7', '8', '9'][d]
}

/// `i` in three decimal digits, padded with zeros.
pub open spec fn slot_digits(i: int) -> Seq<char> {
    seq![digit_char(i / 100), digit_char((i / 10) % 10), digit_char(i % 10)]
}

/// The backup path for slot `i` of `p`: the slot's three digits spliced in
/// before the lowered extension.
pub open spec fn backup_name(p: Seq<char>, i: int) -> Seq<char> {
    path_with_extension(p, slot_digits(i) + "."@ + lowered_extension(p))
}

/// The one-character text of the digit `d`.
fn digit_text(d: u32) -> (r: &'static str)
    requires
        d < 10,
    ensures
        r@ == seq![digit_char(d as int)],
{
    proof {
        reveal_strlit("0");
        reveal_strlit("1");
        reveal_strlit("2");
        reveal_strlit("3");
        reveal_strlit("4");
        reveal_strlit("5");
        reveal_strlit("6");
        reveal_strlit("7");
        reveal_strlit("8");
        reveal_strlit("9");
    }
    if d == 0 {
        "0"
    } else if d == 1 {
        "1"
    } else if d == 2 {
        "2"
    } else if d == 3 {
        "3"
    } else if d == 4 {
        "4"
    } else if d == 5 {
        "5"
    } else if d == 6 {
        "6"
    } else if d == 7 {
        "7"
    } else if d == 8 {
        "8"
    } else {
        "9"
    }
}

/// Make the backup path for slot `index` of `path`: "foo.json" -> "foo.001.json".
pub fn backup_path(path: &str, index: u32) -> (r: String)
    requires
        index < BACKUP_SLOTS,
    ensures
        r@ == backup_name(path@, index as int),
{
    let ext = get_extension(path);
    let mut e = String::new();
    e.append(digit_text(index / 100));
    e.append(digit_text((index / 10) % 10));
    e.append(digit_text(index % 10));
    e.append(".");
    e.append(ext.as_str());
    proof {
        reveal_strlit(".");
        assert(e@ =~= slot_digits(index as int) + "."@ + lowered_extension(path@));
        assert(has_no_separator(e@)) by {
            assert forall|i: int| 0 <= i < e@.len() implies e@[i] != '/' by {
                if i >= 4 {
                    assert(e@[i] == ext@[i - 4]);
                }
            }
        }
    }
    replace_extension(path, e.as_str())
}

/// Whether `i` is the lowest slot that `taken` reports free, among the
/// first `BACKUP_SLOTS`.
pub open spec fn is_lowest_free(taken: Seq<bool>, i: int) -> bool {
    &&& 0 <= i < taken.len()
    &&& i < BACKUP_SLOTS
    &&& !taken[i]
    &&& forall|j: int| 0 <= j < i ==> taken[j]
}

/// Whether `taken` reports every one of the `BACKUP_SLOTS` slots taken.
pub open spec fn all_slots_taken(taken: Seq<bool>) -> bool {
    &&& taken.len() >= BACKUP_SLOTS
    &&& forall|j: int| 0 <= j < BACKUP_SLOTS ==> taken[j]
}

/// Pick the lowest free backup slot, where `taken[i]` tells whether slot
/// `i` is already in use. Slots past `taken`'s end are not considered.
pub fn first_free_slot(taken: &Vec<bool>) -> (r: Result<u32, ConvertError>)
    ensures
        r is Ok <==> exists|i: int| is_lowest_free(taken@, i),
        r is Ok ==> is_lowest_free(taken@, r->Ok_0 as int),
        r is Err ==> r->Err_0 == ConvertError::BackupExhausted,
        taken@.len() >= BACKUP_SLOTS ==> (r is Err <==> all_slots_taken(taken@)),
{
    let mut i: u32 = 0;
    while i < BACKUP_SLOTS && (i as usize) < taken.len()
        invariant
            i <= BACKUP_SLOTS,
            i <= taken@.len(),
            forall|j: int| 0 <= j < i ==> taken@[j],
        decreases BACKUP_SLOTS - i,
    {
        if !taken[i as usize] {
            assert(is_lowest_free(taken@, i as int));
            return Ok(i);
        }
        i = i + 1;
    }
    proof {
        assert forall|k: int| !is_lowest_free(taken@, k) by {
            if is_lowest_free(taken@, k) {
                assert(taken@[k]);
            }
        }
    }
    Err(ConvertError::BackupExhausted)
}

/// The lowest free slot is unique, and every slot below it is taken.
pub proof fn lemma_lowest_free_unique(taken: Seq<bool>, i: int, k: int)
    requires
        is_lowest_free(taken, i),
        is_lowest_free(taken, k),
    ensures
        i == k,
{
    if i < k {
        assert(taken[i]);
    } else if k < i {
        assert(taken[k]);
    }
}

/// With every slot taken there is no free one.
pub proof fn lemma_exhausted_has_no_free(taken: Seq<bool>, i: int)
    requires
        all_slots_taken(taken),
    ensures
        !is_lowest_free(taken, i),
{
}

/// Find where a backup of `path` goes: the lowest slot whose path names no
/// existing file, asking the file system slot by slot.
pub fn find_backup_slot(path: &str) -> (r: Result<(u32, String), ConvertError>)
    ensures
        r is Ok ==> r->Ok_0.0 < BACKUP_SLOTS && r->Ok_0.1@ == backup_name(path@, r->Ok_0.0 as int),
        r is Err ==> r->Err_0 == ConvertError::BackupExhausted,
{
    let mut taken: Vec<bool> = Vec::new();
    let mut i: u32 = 0;
    while i < BACKUP_SLOTS
        invariant
            i <= BACKUP_SLOTS,
        decreases BACKUP_SLOTS - i,
    {
        let candidate = backup_path(path, i);
        let used = path_exists(candidate.as_str());
        taken.push(used);
        if !used {
            break;
        }
        i = i + 1;
    }
    match first_free_slot(&taken) {
        Ok(slot) => Ok((slot, backup_path(path, slot))),
        Err(e) => Err(e),
    }
}

} // verus!
