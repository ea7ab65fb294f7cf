//! The channel rotation that turns the compositor's pixel layout into RGBA.

use vstd::prelude::*;

verus! {

/// Number of bytes in one pixel.
pub const BYTES_PER_PIXEL: usize = 4;

/// Length of the longest prefix of `len` bytes that consists of whole pixels.
pub open spec fn whole_pixels_len(len: nat) -> nat {
    (len - len % 4) as nat
}

/// The byte that stands at index `i` once `s` has been rotated.
///
/// Inside the whole-pixel prefix every pixel `(a, b, c, d)` becomes
/// `(d, a, b, c)`: the first byte of a pixel is its old last byte, every
/// other byte is its old left neighbour.  Behind the prefix nothing moves.
pub open spec fn rotated_byte(s: Seq<u8>, i: int) -> u8 {
    if i >= whole_pixels_len(s.len()) {
        s[i]
    } else if i % 4 == 0 {
        s[i + 3]
    } else {
        s[i - 1]
    }
}

/// The buffer `s` with every whole pixel rotated one byte to the right.
pub open spec fn rotated(s: Seq<u8>) -> Seq<u8> {
    Seq::new(s.len(), |i: int| rotated_byte(s, i))
}

/// Exchanges the bytes at `i` and `j`.
fn swap_bytes(buffer: &mut Vec<u8>, i: usize, j: usize)
    requires
        i < old(buffer)@.len(),
        j < old(buffer)@.len(),
    ensures
        final(buffer)@ == old(buffer)@.update(i as int, old(buffer)@[j as int]).update(
            j as int,
            old(buffer)@[i as int],
        ),
{
    let x: u8 = buffer[i];
    let y: u8 = buffer[j];
    buffer[i] = y;
    buffer[j] = x;
}

/// Rewrites `buffer` in place from the compositor's channel order to RGBA.
///
/// Each whole pixel `(a, b, c, d)` becomes `(d, a, b, c)`.  One to three
/// bytes left over behind the last whole pixel are not touched, and the
/// length never changes.
pub fn convert_to_png(buffer: &mut Vec<u8>)
    ensures
        final(buffer)@ == rotated(old(buffer)@),
        final(buffer)@.len() == old(buffer)@.len(),
        forall|k: int|
            whole_pixels_len(old(buffer)@.len()) <= k < old(buffer)@.len() ==> final(buffer)@[k]
                == old(buffer)@[k],
{
    let mut length: usize = buffer.len();
    length -= length % BYTES_PER_PIXEL;
    let mut i: usize = 0;
    while i < length
        invariant
            length == whole_pixels_len(old(buffer)@.len()),
            buffer@.len() == old(buffer)@.len(),
            i <= length,
            i % 4 == 0,
            forall|k: int| 0 <= k < i ==> buffer@[k] == rotated_byte(old(buffer)@, k),
            forall|k: int| i <= k < buffer@.len() ==> buffer@[k] == old(buffer)@[k],
        decreases length - i,
    {
        // a b c d -> a b d c -> d b a c -> d a b c
        swap_bytes(buffer, i + 2, i + 3);
        swap_bytes(buffer, i, i + 2);
        swap_bytes(buffer, i + 2, i + 1);
        i += BYTES_PER_PIXEL;
    }
    assert(buffer@ =~= rotated(old(buffer)@));
}

/// A single pixel `(a, b, c, d)` is rotated to `(d, a, b, c)`.
pub proof fn lemma_pixel_rotated_once(a: u8, b: u8, c: u8, d: u8)
    ensures
        rotated(seq![a, b, c, d]) == seq![d, a, b, c],
{
    assert(rotated(seq![a, b, c, d]) =~= seq![d, a, b, c]);
}

/// Rotating a single pixel `(a, b, c, d)` twice gives `(c, d, a, b)`.
pub proof fn lemma_pixel_rotated_twice(a: u8, b: u8, c: u8, d: u8)
    ensures
        rotated(rotated(seq![a, b, c, d])) == seq![c, d, a, b],
{
    lemma_pixel_rotated_once(a, b, c, d);
    lemma_pixel_rotated_once(d, a, b, c);
}

/// Rotating a single pixel four times gives the pixel back.
pub proof fn lemma_pixel_rotated_four_times(a: u8, b: u8, c: u8, d: u8)
    ensures
        rotated(rotated(rotated(rotated(seq![a, b, c, d])))) == seq![a, b, c, d],
{
    lemma_pixel_rotated_twice(a, b, c, d);
    lemma_pixel_rotated_twice(c, d, a, b);
}

/// In a buffer of any length, rotating twice moves every byte of a whole
/// pixel two places to the right within its pixel, and leaves the rest.
pub proof fn lemma_rotated_twice(s: Seq<u8>)
    ensures
        rotated(rotated(s)).len() == s.len(),
        forall|i: int|
            0 <= i < whole_pixels_len(s.len()) ==> #[trigger] rotated(rotated(s))[i] == s[i - i % 4
                + (i + 2) % 4],
        forall|i: int|
            whole_pixels_len(s.len()) <= i < s.len() ==> #[trigger] rotated(rotated(s))[i] == s[i],
{
    let once = rotated(s);
    let whole = whole_pixels_len(s.len()) as int;
    assert(whole % 4 == 0);
    assert forall|i: int| 0 <= i < whole implies #[trigger] rotated(once)[i] == s[i - i % 4 + (i
        + 2) % 4] by {
        let base = i - i % 4;
        assert(base % 4 == 0 && base + 3 < whole);
        if i % 4 == 0 {
            assert(rotated(once)[i] == once[i + 3]);
            assert(once[i + 3] == s[i + 2]);
        } else if i % 4 == 1 {
            assert(rotated(once)[i] == once[i - 1]);
            assert(once[i - 1] == s[i + 2]);
        } else {
            assert(rotated(once)[i] == once[i - 1]);
            assert(once[i - 1] == s[i - 2]);
        }
    }
    assert forall|i: int| whole <= i < s.len() implies #[trigger] rotated(once)[i] == s[i] by {
        assert(once[i] == s[i]);
    }
}

/// In a buffer of any length, rotating four times changes nothing.
pub proof fn lemma_rotated_four_times(s: Seq<u8>)
    ensures
        rotated(rotated(rotated(rotated(s)))) == s,
{
    let twice = rotated(rotated(s));
    lemma_rotated_twice(s);
    lemma_rotated_twice(twice);
    assert(rotated(rotated(twice)) =~= s);
}

/// Rotation never reaches behind the last whole pixel: two buffers that
/// agree on their whole pixels are rotated to buffers that agree there too,
/// whatever their trailing bytes hold.
pub proof fn lemma_rotation_ignores_tail(s: Seq<u8>, t: Seq<u8>)
    requires
        s.len() == t.len(),
        forall|i: int| 0 <= i < whole_pixels_len(s.len()) ==> s[i] == t[i],
    ensures
        forall|i: int|
            0 <= i < whole_pixels_len(s.len()) ==> #[trigger] rotated(s)[i] == rotated(t)[i],
        forall|i: int| whole_pixels_len(s.len()) <= i < s.len() ==> rotated(s)[i] == s[i],
{
}

} // verus!
