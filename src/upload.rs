//! The bytes of a state buffer as they are handed to the device: 32 bits
//! per cell, in the machine's byte order.
use vstd::prelude::*;
use crate::life::cells_binary;

verus! {

/// The four bytes of `v`, least significant first.
pub open spec fn le_bytes(v: u32) -> Seq<u8> {
    seq![
        (v % 256) as u8,
        ((v / 256) % 256) as u8,
        ((v / 65536) % 256) as u8,
        (v / 16777216) as u8,
    ]
}

/// The four bytes of `v`, most significant first.
pub open spec fn be_bytes(v: u32) -> Seq<u8> {
    seq![le_bytes(v)[3], le_bytes(v)[2], le_bytes(v)[1], le_bytes(v)[0]]
}

/// `bytes` holds the values of `cells` one after the other, four bytes
/// each, least significant first when `little`, else most significant first.
pub open spec fn encoded_with(cells: Seq<u32>, bytes: Seq<u8>, little: bool) -> bool {
    &&& bytes.len() == 4 * cells.len()
    &&& forall|i: int|
        0 <= i < cells.len() ==> #[trigger] bytes.subrange(4 * i, 4 * i + 4) == if little {
            le_bytes(cells[i])
        } else {
            be_bytes(cells[i])
        }
}

/// Relies on `bytemuck::cast_slice::<u32, u8>`: the memory of the elements
/// seen as bytes (it cannot fail for this pair of types), which is each value
/// in the machine's one byte order.
#[verifier::external_body]
fn cast_to_bytes(cells: &[u32]) -> (r: Vec<u8>)
    ensures
        encoded_with(cells@, r@, true) || encoded_with(cells@, r@, false),
{
    bytemuck::cast_slice::<u32, u8>(cells).to_vec()
}

/// The bytes uploaded for a state buffer: four per cell, with the cell's
/// value (0 or 1) in its least significant byte and zeros in the others;
/// that byte comes first on a little-endian machine and last otherwise.
pub fn state_bytes(cells: &Vec<u32>) -> (r: Vec<u8>)
    requires
        cells_binary(cells@),
    ensures
        r@.len() == 4 * cells@.len(),
        encoded_with(cells@, r@, true) || encoded_with(cells@, r@, false),
        forall|i: int|
            0 <= i < cells@.len() ==> #[trigger] r@.subrange(4 * i, 4 * i + 4) == seq![
                cells@[i] as u8,
                0u8,
                0u8,
                0u8,
            ] || r@.subrange(4 * i, 4 * i + 4) == seq![0u8, 0u8, 0u8, cells@[i] as u8],
{
    let r = cast_to_bytes(cells.as_slice());
    proof {
        assert forall|i: int| 0 <= i < cells@.len() implies #[trigger] r@.subrange(4 * i, 4 * i + 4)
            == seq![cells@[i] as u8, 0u8, 0u8, 0u8] || r@.subrange(4 * i, 4 * i + 4) == seq![
            0u8,
            0u8,
            0u8,
            cells@[i] as u8,
        ] by {
            let v = cells@[i];
            assert(v == 0 || v == 1);
            assert(le_bytes(v) =~= seq![v as u8, 0u8, 0u8, 0u8]);
            assert(be_bytes(v) =~= seq![0u8, 0u8, 0u8, v as u8]);
        }
    }
    r
}

} // verus!
