//! Byte renderer: formats a batch of inbound device bytes for display.
//!
//! Every byte strictly below the session's hex threshold is shown as the
//! six-byte escape token `<0xNN>` (two uppercase hexadecimal digits); every
//! other byte passes through raw. Threshold zero therefore disables escaping
//! entirely. Rendering carries no state besides the threshold argument.

use vstd::prelude::*;

verus! {

/// ASCII code of the uppercase hexadecimal digit for a nibble.
pub open spec fn hex_digit_ascii(n: u8) -> u8
    recommends
        n < 16,
{
    if n < 10 {
        (n + 0x30) as u8
    } else {
        (n + 0x37) as u8
    }
}

/// The six-byte escape token `<0xNN>` that stands for one escaped byte.
pub open spec fn escape_token(b: u8) -> Seq<u8> {
    seq![
        0x3Cu8,
        0x30u8,
        0x78u8,
        hex_digit_ascii(b / 16),
        hex_digit_ascii(b % 16),
        0x3Eu8,
    ]
}

/// Display form of a single inbound byte under a threshold: escaped when
/// strictly below it, raw otherwise.
pub open spec fn render_byte(b: u8, threshold: u8) -> Seq<u8> {
    if b < threshold {
        escape_token(b)
    } else {
        seq![b]
    }
}

/// Display form of a whole batch: each byte's rendering, in batch order.
pub open spec fn render_batch(s: Seq<u8>, threshold: u8) -> Seq<u8>
    decreases s.len(),
{
    if s.len() == 0 {
        Seq::empty()
    } else {
        render_batch(s.drop_last(), threshold) + render_byte(s.last(), threshold)
    }
}

/// A byte strictly below the threshold renders as its escape token; every
/// other byte renders as itself. In particular no byte is escaped under
/// threshold zero.
pub proof fn lemma_render_byte_threshold(b: u8, threshold: u8)
    ensures
        b < threshold ==> render_byte(b, threshold) == escape_token(b),
        b >= threshold ==> render_byte(b, threshold) == seq![b],
{
}

/// Threshold zero disables escaping: every batch renders exactly as itself.
pub proof fn lemma_threshold_zero_raw(s: Seq<u8>)
    ensures
        render_batch(s, 0) == s,
    decreases s.len(),
{
    if s.len() == 0 {
        assert(render_batch(s, 0) =~= s);
    } else {
        lemma_threshold_zero_raw(s.drop_last());
        assert(render_batch(s, 0) =~= s);
    }
}

/// Rendering carries no state across batches: a batch split anywhere
/// renders as the two halves rendered separately, in order. Together with
/// `render`'s postcondition this makes the display a function of the batch
/// and the threshold alone, so rendering the same batch twice yields
/// identical output.
pub proof fn lemma_render_batch_concat(a: Seq<u8>, b: Seq<u8>, threshold: u8)
    ensures
        render_batch(a + b, threshold) == render_batch(a, threshold) + render_batch(b, threshold),
    decreases b.len(),
{
    if b.len() == 0 {
        assert(a + b =~= a);
        assert(render_batch(a, threshold) + render_batch(b, threshold) =~= render_batch(
            a,
            threshold,
        ));
    } else {
        lemma_render_batch_concat(a, b.drop_last(), threshold);
        assert((a + b).drop_last() =~= a + b.drop_last());
        assert((a + b).last() == b.last());
        assert(render_batch(a, threshold) + render_batch(b, threshold) =~= render_batch(
            a,
            threshold,
        ) + render_batch(b.drop_last(), threshold) + render_byte(b.last(), threshold));
    }
}

fn hex_digit(n: u8) -> (r: u8)
    requires
        n < 16,
    ensures
        r == hex_digit_ascii(n),
{
    if n < 10 {
        n + 0x30
    } else {
        n + 0x37
    }
}

/// Renders a batch of inbound bytes for display. The output is a pure
/// function of the batch and the threshold, so rendering the same batch
/// twice yields identical output.
pub fn render(bytes: &[u8], threshold: u8) -> (out: Vec<u8>)
    ensures
        out@ == render_batch(bytes@, threshold),
{
    let mut out: Vec<u8> = Vec::new();
    let mut i: usize = 0;
    while i < bytes.len()
        invariant
            i <= bytes@.len(),
            out@ == render_batch(bytes@.take(i as int), threshold),
        decreases bytes@.len() - i,
    {
        let b = bytes[i];
        if b < threshold {
            out.push(0x3C);
            out.push(0x30);
            out.push(0x78);
            out.push(hex_digit(b / 16));
            out.push(hex_digit(b % 16));
            out.push(0x3E);
        } else {
            out.push(b);
        }
        proof {
            assert(bytes@.take(i + 1).drop_last() =~= bytes@.take(i as int));
            assert(bytes@.take(i + 1).last() == b);
            assert(out@ =~= render_batch(bytes@.take(i as int), threshold) + render_byte(
                b,
                threshold,
            ));
        }
        i = i + 1;
    }
    proof {
        assert(bytes@.take(bytes@.len() as int) =~= bytes@);
    }
    out
}

} // verus!
