//! The palette store: a read-only table of 256 RGB colors, loaded once
//! from a 768-byte resource and indexed by a single byte.

use vstd::prelude::*;

verus! {

/// The palette source did not hold exactly 768 bytes. Carries the
/// offending length for the diagnostic.
#[derive(Debug)]
pub struct ResourceIntegrityError {
    /// The number of bytes the source actually held.
    pub actual_len: usize,
}

/// A fixed table of 256 RGB colors: 768 bytes, three channels per entry,
/// in index order 0–255. Immutable once loaded.
pub struct Palette {
    data: Vec<u8>,
}

impl Palette {
    /// The palette's bytes: entry `i`, channel `c` is byte `3 * i + c`.
    pub closed spec fn view(&self) -> Seq<u8> {
        self.data@
    }

    /// A loaded palette always holds exactly 768 bytes.
    pub closed spec fn wf(&self) -> bool {
        self.data@.len() == 768
    }

    /// Builds the palette from a raw resource. Succeeds exactly when the
    /// source holds 768 bytes, and then keeps every byte of the source;
    /// any other length is rejected with the length it saw, and no
    /// partial table is ever produced.
    pub fn load(source: Vec<u8>) -> (r: Result<Palette, ResourceIntegrityError>)
        ensures
            source@.len() == 768 <==> r is Ok,
            r matches Ok(p) ==> p.wf() && p@ == source@,
            r matches Err(e) ==> e.actual_len == source@.len(),
    {
        if source.len() == 768 {
            Ok(Palette { data: source })
        } else {
            Err(ResourceIntegrityError { actual_len: source.len() })
        }
    }

    /// Returns channel `c` (0 = red, 1 = green, 2 = blue) of entry `index`:
    /// byte `3 * index + c` of the source the palette was loaded from.
    pub fn lookup(&self, index: u8, channel: usize) -> (r: u8)
        requires
            self.wf(),
            channel < 3,
        ensures
            r == self@[3 * (index as int) + channel as int],
    {
        self.data[3 * (index as usize) + channel]
    }
}

/// Loading never reorders or rewrites the source: after a successful load
/// from a 768-byte source, looking up entry `i`, channel `c` yields byte
/// `3 * i + c` of that source.
pub proof fn lemma_load_then_lookup(source: Seq<u8>, pal: Seq<u8>, i: u8, c: int)
    requires
        source.len() == 768,
        pal == source,
        0 <= c < 3,
    ensures
        pal[3 * (i as int) + c] == source[3 * (i as int) + c],
{
}

} // verus!
