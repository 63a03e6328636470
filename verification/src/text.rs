//! Names as the driver reads them: the bytes of the text, closed by a zero
//! byte. A name that holds a zero byte of its own would end early, so none
//! is ever handed over.

use vstd::prelude::*;
use vstd::slice::slice_to_vec;
use vstd::string::StringSliceAdditionalSpecFns;

verus! {

/// No byte of `bytes` is zero.
pub open spec fn nul_free(bytes: Seq<u8>) -> bool {
    forall|i: int| 0 <= i < bytes.len() ==> bytes[i] != 0
}

/// Whether `name` can be handed to the driver: whether none of its bytes is
/// zero.
pub fn is_nul_free(name: &str) -> (free: bool)
    ensures
        free == nul_free(name.spec_bytes()),
{
    let bytes = name.as_bytes();
    let mut i: usize = 0;
    while i < bytes.len()
        invariant
            bytes@ == name.spec_bytes(),
            i <= bytes@.len(),
            forall|j: int| 0 <= j < i ==> bytes@[j] != 0,
        decreases bytes@.len() - i,
    {
        if bytes[i] == 0 {
            assert(name.spec_bytes()[i as int] == 0);
            return false;
        }
        i += 1;
    }
    true
}

/// The bytes of `name`, closed by the zero byte that ends them for the
/// driver.
pub fn c_string(name: &str) -> (text: Vec<u8>)
    requires
        nul_free(name.spec_bytes()),
    ensures
        text@ == name.spec_bytes().push(0),
{
    let mut text = slice_to_vec(name.as_bytes());
    text.push(0);
    text
}

} // verus!
