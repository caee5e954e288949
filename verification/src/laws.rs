//! What holds of every chain, whatever it was built from.

use crate::chain::{chain_texts, erases, finds, recovers, shows, ChainView};
use crate::error::{absorbs, settles, DefaultError};
use core::fmt::{Debug, Display};
use vstd::prelude::*;

verus! {

/// Of two frames attached one after the other, the later one is the summary,
/// and the listing starts with the later one, then the earlier one, then all
/// that was listed before.
pub proof fn lemma_newest_frame_first(chain: ChainView, c1: Seq<char>, c2: Seq<char>)
    ensures
        chain.with_frame(c1).with_frame(c2).summary() == c2,
        chain.with_frame(c1).with_frame(c2).layers() == seq![c2, c1] + chain.layers(),
{
    let two = chain.with_frame(c1).with_frame(c2);
    assert(two.frames.reverse() == seq![c2, c1] + chain.frames.reverse());
    assert(two.layers() == seq![c2, c1] + chain.layers());
}

/// A chain made of the failure `v` and then put under the frames `c1` and
/// `c2` has `c2` as its summary and lists `c2`, then `c1`, then a message
/// that `v` displays, and nothing else.
pub proof fn lemma_fresh_chain_listing<V: Display + Debug + Send + Sync + 'static>(
    v: V,
    root: anyhow::Error,
    c1: Seq<char>,
    c2: Seq<char>,
)
    requires
        erases(v, root),
    ensures
        ChainView::bare(root).with_frame(c1).with_frame(c2).summary() == c2,
        ChainView::bare(root).with_frame(c1).with_frame(c2).layers() == seq![
            c2,
            c1,
            ChainView::bare(root).summary(),
        ],
        shows(v, ChainView::bare(root).summary()),
{
    let bare = ChainView::bare(root);
    lemma_newest_frame_first(bare, c1, c2);
    assert(bare.frames.reverse() == Seq::<Seq<char>>::empty());
    assert(chain_texts(root) == seq![chain_texts(root)[0]]);
    assert(bare.layers() == seq![bare.summary()]);
    assert(seq![c2, c1] + seq![bare.summary()] == seq![c2, c1, bare.summary()]);
}

/// The summary is the first line of the listing.
pub proof fn lemma_summary_heads_listing(chain: ChainView)
    requires
        chain_texts(chain.root).len() > 0,
    ensures
        chain.layers().len() == chain.frames.len() + chain_texts(chain.root).len(),
        chain.summary() == chain.layers()[0],
{
}

/// Attaching frames one by one and attaching them all at once come to the
/// same chain.
pub proof fn lemma_frames_one_by_one(chain: ChainView, more: Seq<Seq<char>>, last: Seq<char>)
    ensures
        chain.with_frames(Seq::empty()) == chain,
        chain.with_frames(more.push(last)) == chain.with_frames(more).with_frame(last),
{
    assert(chain.frames + Seq::<Seq<char>>::empty() == chain.frames);
    assert(chain.frames + more.push(last) == (chain.frames + more).push(last));
}

/// However many frames are attached to a chain made of a value `v` of type
/// `E`, a look at it as an `E` finds `v`, and taking it out as an `E` gives
/// `v`.
pub proof fn lemma_frames_keep_classification<E: Display + Debug + Send + Sync + 'static>(
    v: E,
    chain: ChainView,
    more: Seq<Seq<char>>,
    found: Option<&E>,
    outcome: Result<E, anyhow::Error>,
)
    requires
        erases(v, chain.root),
    ensures
        chain.with_frames(more).root == chain.root,
        finds::<E>(chain.with_frames(more).root, found) ==> found == Some(&v),
        recovers::<E>(chain.with_frames(more).root, outcome) ==> outcome == Ok::<
            E,
            anyhow::Error,
        >(v),
{
}

/// What `get` makes of a chain is the root cause itself where the chain was
/// made of a value of the primary type, and otherwise, where the root cause
/// cannot be taken out as the primary type, what the catch-all rule makes of
/// the chain.
pub proof fn lemma_get_precise_or_catch_all<E: DefaultError + Debug + Display + Send + Sync + 'static>(
    chain: ChainView,
    value: E,
)
    requires
        settles(chain, value),
    ensures
        forall|v: E| #[trigger] erases(v, chain.root) ==> value == v,
        !recovers::<E>(chain.root, Ok(value)) ==> absorbs(chain, value),
{
}

} // verus!
