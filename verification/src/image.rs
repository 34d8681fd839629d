//! The image loader: a program image is a sequence of big-endian 16-bit
//! words whose first word is the origin address; the remaining words are
//! copied into memory contiguously from the origin.

use vstd::prelude::*;

use crate::machine::{spec_load_words, VM};

verus! {

/// The `i`-th big-endian word of an image's bytes.
pub open spec fn word_at(bytes: Seq<u8>, i: int) -> u16 {
    (bytes[2 * i] * 256 + bytes[2 * i + 1]) as u16
}

/// All big-endian words of an image's bytes, in order.
pub open spec fn image_words(bytes: Seq<u8>) -> Seq<u16> {
    Seq::new((bytes.len() / 2) as nat, |i: int| word_at(bytes, i))
}

/// The origin address: the image's first word.
pub open spec fn image_origin(bytes: Seq<u8>) -> u16 {
    word_at(bytes, 0)
}

/// The data words loaded at the origin: every word after the first.
/// An origin-only image has no data words, which is not an error.
pub open spec fn image_data(bytes: Seq<u8>) -> Seq<u16> {
    image_words(bytes).drop_first()
}

/// A well-formed image byte stream: it holds at least the origin word
/// and consists of whole 16-bit words.
pub open spec fn well_formed_image(bytes: Seq<u8>) -> bool {
    &&& bytes.len() >= 2
    &&& bytes.len() % 2 == 0
}

/// Parses a big-endian program image and copies its data words into
/// memory starting at its origin word.  Returns whether loading
/// succeeded: a stream shorter than one word, or one that ends in half a
/// word, is a load failure that leaves memory untouched.  Registers and
/// the run state never change, so a failed load is inspectable and no
/// instruction has executed.
pub fn read_image(vm: &mut VM, bytes: &Vec<u8>) -> (ok: bool)
    requires
        old(vm).wf(),
    ensures
        final(vm).wf(),
        ok <==> well_formed_image(bytes@),
        ok ==> final(vm)@.mem == spec_load_words(
            old(vm)@.mem,
            image_origin(bytes@),
            image_data(bytes@),
        ),
        !ok ==> final(vm)@.mem == old(vm)@.mem,
        final(vm)@.regs == old(vm)@.regs,
        final(vm)@.state == old(vm)@.state,
{
    if bytes.len() < 2 || bytes.len() % 2 != 0 {
        return false;
    }
    let n = bytes.len() / 2;
    let origin = (bytes[0] as u16) * 256 + (bytes[1] as u16);
    let mut words: Vec<u16> = Vec::new();
    let mut w: usize = 1;
    proof {
        assert(words@ =~= image_words(bytes@).subrange(1, 1));
    }
    while w < n
        invariant
            n == bytes@.len() / 2,
            bytes@.len() <= usize::MAX,
            bytes@.len() % 2 == 0,
            1 <= w <= n,
            words@ == image_words(bytes@).subrange(1, w as int),
        decreases n - w,
    {
        proof {
            assert(2 * w + 1 < bytes@.len());
        }
        let hi = bytes[2 * w] as u16;
        let lo = bytes[2 * w + 1] as u16;
        let ghost words0 = words@;
        words.push(hi * 256 + lo);
        proof {
            assert(words0.push(word_at(bytes@, w as int)) =~= image_words(bytes@).subrange(
                1,
                w + 1,
            ));
        }
        w = w + 1;
    }
    proof {
        assert(words@ =~= image_data(bytes@));
    }
    vm.load_image(origin, &words);
    true
}

} // verus!
