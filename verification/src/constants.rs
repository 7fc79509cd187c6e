use vstd::prelude::*;

verus! {

/// Storage class of a managed database volume.
///
/// `Unknown` is a valid terminal classification for any class string the
/// provider reports that this crate does not recognize; it degrades the
/// limit calculation to a zero limit instead of failing the instance.
#[derive(Clone, Copy, Debug, PartialEq, Eq, Structural)]
pub enum StorageType {
    GP2,
    GP3,
    IO1,
    Unknown,
}

/// The storage class denoted by a provider class string.
pub open spec fn storage_type_of(s: Seq<char>) -> StorageType {
    if s == "gp2"@ {
        StorageType::GP2
    } else if s == "gp3"@ {
        StorageType::GP3
    } else if s == "io1"@ {
        StorageType::IO1
    } else {
        StorageType::Unknown
    }
}

/// Character-wise equality of two string slices.
pub fn str_eq(a: &str, b: &str) -> (r: bool)
    ensures
        r == (a@ == b@),
{
    let a_len = a.unicode_len();
    let b_len = b.unicode_len();
    if a_len != b_len {
        return false;
    }
    let mut i: usize = 0;
    while i < a_len
        invariant
            a_len == a@.len(),
            b_len == b@.len(),
            a_len == b_len,
            i <= a_len,
            forall|j: int| 0 <= j < i ==> a@[j] == b@[j],
        decreases a_len - i,
    {
        if a.get_char(i) != b.get_char(i) {
            return false;
        }
        i = i + 1;
    }
    proof {
        assert(a@ =~= b@);
    }
    true
}

impl StorageType {
    /// Classify the provider's storage-class string; an unrecognized string
    /// yields `Unknown`, never an error.
    pub fn try_from_string(s: &str) -> (t: StorageType)
        ensures
            t == storage_type_of(s@),
    {
        if str_eq(s, "gp2") {
            StorageType::GP2
        } else if str_eq(s, "gp3") {
            StorageType::GP3
        } else if str_eq(s, "io1") {
            StorageType::IO1
        } else {
            StorageType::Unknown
        }
    }
}

} // verus!
