//! The compute half of key listing: keep keys that name files, drop
//! directory markers.

use vstd::prelude::*;
use vstd::string::StrSliceExecFns;

verus! {

/// Whether a key is a directory marker: non-empty and ending in a
/// slash.
pub open spec fn spec_is_dir_key(k: Seq<char>) -> bool {
    k.len() > 0 && k[k.len() - 1] == '/'
}

/// Whether this key names a directory marker rather than a file.
pub fn is_dir_key(k: &str) -> (r: bool)
    ensures
        r == spec_is_dir_key(k@),
{
    let n = k.unicode_len();
    if n == 0 {
        false
    } else {
        k.get_char(n - 1) == '/'
    }
}

/// Keep, in order, exactly the keys that name files.
pub fn filter_file_keys(keys: &Vec<String>) -> (r: Vec<String>)
    ensures
        r@.map_values(|k: String| k@) == keys@.map_values(|k: String| k@).filter(
            |k: Seq<char>| !spec_is_dir_key(k),
        ),
{
    let mut r: Vec<String> = Vec::new();
    let mut i: usize = 0;
    while i < keys.len()
        invariant
            0 <= i <= keys@.len(),
            r@.map_values(|k: String| k@) == keys@.subrange(0, i as int).map_values(
                |k: String| k@,
            ).filter(|k: Seq<char>| !spec_is_dir_key(k)),
        decreases keys@.len() - i,
    {
        let ghost prev = keys@.subrange(0, i as int).map_values(|k: String| k@);
        let keep = !is_dir_key(keys[i].as_str());
        if keep {
            let ghost rprev = r@.map_values(|k: String| k@);
            r.push(keys[i].clone());
            proof {
                assert(r@.map_values(|k: String| k@) =~= rprev.push(keys@[i as int]@));
            }
        }
        proof {
            let cur = keys@.subrange(0, i + 1).map_values(|k: String| k@);
            assert(cur =~= prev.push(keys@[i as int]@));
            prev.lemma_filter_push(keys@[i as int]@, |k: Seq<char>| !spec_is_dir_key(k));
        }
        i = i + 1;
    }
    proof {
        assert(keys@.subrange(0, keys@.len() as int) =~= keys@);
    }
    r
}

} // verus!
