//! The fair piece sequencer: kinds are dealt from shuffled bags that each hold
//! every kind exactly once.

use vstd::prelude::*;
use vstd::multiset::Multiset;
use rand::rngs::StdRng;
use rand::seq::SliceRandom;
use rand::Rng;
use crate::shapes::Tetromino;

verus! {

broadcast use vstd::seq_lib::group_seq_properties, vstd::multiset::group_multiset_axioms;

/// rand's `StdRng`, the sequencer's source of randomness, carried through as an
/// opaque value.
#[verifier::external_type_specification]
#[verifier::external_body]
pub struct ExStdRng(StdRng);

/// Every kind, once each.
pub open spec fn all_kinds() -> Seq<Tetromino> {
    seq![
        Tetromino::O,
        Tetromino::T,
        Tetromino::L,
        Tetromino::J,
        Tetromino::S,
        Tetromino::Z,
        Tetromino::I,
    ]
}

/// `s` holds every kind exactly once, in some order.
pub open spec fn is_bag(s: Seq<Tetromino>) -> bool {
    s.to_multiset() == all_kinds().to_multiset()
}

/// One draw from the sequencer: from the pair of batches `(current, next)` to
/// `(current2, next2)`, dealing `kind`. A non-empty current batch gives up its
/// last kind. An empty one is replaced by the next batch, whose last kind is
/// dealt, and a fresh bag becomes the next batch; when both are empty, fresh
/// bags are dealt from and queued.
pub open spec fn drawn(
    current: Seq<Tetromino>,
    next: Seq<Tetromino>,
    current2: Seq<Tetromino>,
    next2: Seq<Tetromino>,
    kind: Tetromino,
) -> bool {
    if current.len() > 0 {
        current2 == current.drop_last() && next2 == next && kind == current.last()
    } else if next.len() > 0 {
        current2.push(kind) == next && is_bag(next2)
    } else {
        is_bag(current2.push(kind)) && is_bag(next2)
    }
}

/// Relies on rand's `SliceRandom::shuffle`: it reorders the slice in place,
/// keeping its elements.
#[verifier::external_body]
fn shuffle_kinds(batch: &mut Vec<Tetromino>, rng: &mut StdRng)
    ensures
        final(batch)@.to_multiset() == old(batch)@.to_multiset(),
{
    batch.shuffle(rng);
}

/// Relies on rand's `Rng::gen_range`: a value in `[low, high)`; it panics when
/// `low >= high`.
#[verifier::external_body]
pub(crate) fn random_in(rng: &mut StdRng, low: u8, high: u8) -> (r: u8)
    requires
        low < high,
    ensures
        low <= r < high,
{
    rng.gen_range(low, high)
}

/// Replaces `batch` with a freshly shuffled bag of all seven kinds.
pub fn generate_batch(rng: &mut StdRng, batch: &mut Vec<Tetromino>)
    ensures
        is_bag(final(batch)@),
{
    let mut fresh: Vec<Tetromino> = Vec::new();
    fresh.push(Tetromino::O);
    fresh.push(Tetromino::T);
    fresh.push(Tetromino::L);
    fresh.push(Tetromino::J);
    fresh.push(Tetromino::S);
    fresh.push(Tetromino::Z);
    fresh.push(Tetromino::I);
    assert(fresh@ =~= all_kinds());
    shuffle_kinds(&mut fresh, rng);
    *batch = fresh;
}

/// A bag has seven kinds and holds each kind exactly once.
pub proof fn lemma_bag_counts(s: Seq<Tetromino>)
    requires
        is_bag(s),
    ensures
        s.len() == 7,
        forall|k: Tetromino| #[trigger] s.to_multiset().count(k) == 1,
{
    let e = Seq::<Tetromino>::empty();
    assert(all_kinds() =~= e.push(Tetromino::O).push(Tetromino::T).push(Tetromino::L).push(
        Tetromino::J,
    ).push(Tetromino::S).push(Tetromino::Z).push(Tetromino::I));
    assert(e.to_multiset() =~= Multiset::empty()) by {
        assert(e.to_multiset().len() == 0);
    }
    assert(s.to_multiset().len() == 7);
}

/// Consecutive draws `kinds[i]` taking the batches from `(current[i], next[i])`
/// to `(current[i + 1], next[i + 1])` stay within the bag that was the next
/// batch when the first draw found the current batch empty, so they fall in
/// the order reverse to that bag.
proof fn lemma_draw_run(
    b: Seq<Tetromino>,
    current: Seq<Seq<Tetromino>>,
    next: Seq<Seq<Tetromino>>,
    kinds: Seq<Tetromino>,
    i: int,
)
    requires
        1 <= i <= 7,
        b.len() == 7,
        current.len() == 8,
        next.len() == 8,
        kinds.len() == 7,
        current[i] == b.take(7 - i),
        forall|j: int|
            1 <= j < 7 ==> drawn(current[j], next[j], current[j + 1], next[j + 1], #[trigger] kinds[j]),
    ensures
        forall|j: int| i <= j < 7 ==> #[trigger] kinds[j] == b[6 - j],
    decreases 7 - i,
{
    if i < 7 {
        assert(drawn(current[i], next[i], current[i + 1], next[i + 1], kinds[i]));
        assert(current[i + 1] =~= b.take(7 - (i + 1)));
        lemma_draw_run(b, current, next, kinds, i + 1);
    }
}

/// Seven consecutive draws that begin where a bag begins (the current batch is
/// empty) deal each of the seven kinds exactly once.
pub proof fn lemma_bag_fair(
    current: Seq<Seq<Tetromino>>,
    next: Seq<Seq<Tetromino>>,
    kinds: Seq<Tetromino>,
)
    requires
        current.len() == 8,
        next.len() == 8,
        kinds.len() == 7,
        current[0].len() == 0,
        next[0].len() == 0 || is_bag(next[0]),
        forall|i: int|
            0 <= i < 7 ==> drawn(current[i], next[i], current[i + 1], next[i + 1], #[trigger] kinds[i]),
    ensures
        forall|k: Tetromino| #[trigger] kinds.to_multiset().count(k) == 1,
{
    assert(drawn(current[0], next[0], current[1], next[1], kinds[0]));
    let b = current[1].push(kinds[0]);
    assert(is_bag(b));
    lemma_bag_counts(b);
    assert(current[1] =~= b.take(6));
    lemma_draw_run(b, current, next, kinds, 1);
    assert(kinds =~= b.reverse());
    b.lemma_reverse_to_multiset();
    lemma_bag_counts(kinds);
}

} // verus!
