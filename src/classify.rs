use vstd::prelude::*;

verus! {

/// How many leading bytes of a file decide whether it is binary.
pub const SAMPLE_LEN: usize = 8192;

/// The part of a sample that the classification looks at.
pub open spec fn sample_window(sample: Seq<u8>) -> Seq<u8> {
    if sample.len() <= SAMPLE_LEN as int {
        sample
    } else {
        sample.take(SAMPLE_LEN as int)
    }
}

/// A file is binary when a null byte occurs within its leading window.
pub open spec fn is_binary_content(sample: Seq<u8>) -> bool {
    exists|i: int| 0 <= i < sample_window(sample).len() && sample_window(sample)[i] == 0u8
}

/// Classifies a file from its leading bytes: binary if any of the first
/// `SAMPLE_LEN` bytes is a null byte, text otherwise.
pub fn is_binary_sample(sample: &[u8]) -> (r: bool)
    ensures
        r == is_binary_content(sample@),
{
    let n: usize = if sample.len() < SAMPLE_LEN { sample.len() } else { SAMPLE_LEN };
    let mut i: usize = 0;
    while i < n
        invariant
            n <= sample@.len(),
            n == sample_window(sample@).len(),
            i <= n,
            forall|j: int| 0 <= j < i ==> sample_window(sample@)[j] != 0u8,
        decreases n - i,
    {
        if sample[i] == 0u8 {
            assert(sample_window(sample@)[i as int] == 0u8);
            return true;
        }
        i = i + 1;
    }
    false
}

} // verus!
