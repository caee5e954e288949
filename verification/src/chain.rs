//! The dynamic error chain: one type-erased root cause under an ordered list
//! of context frames.
//!
//! The root cause lives in an `anyhow::Error`, which erases its type and can
//! give it back by downcast. The context frames are plain text kept beside
//! it, oldest first, so that no frame is ever a candidate for a downcast.

use vstd::prelude::*;
use vstd::string::to_string_from_display_ensures;

verus! {

/// `anyhow::Error`, carried as an opaque value.
#[verifier::external_type_specification]
#[verifier::external_body]
pub struct ExAnyhowError(anyhow::Error);

/// The messages of the errors in the source chain of an `anyhow::Error`,
/// outermost first: what each item of `anyhow::Error::chain` displays. An
/// error is taken to display the same text whenever it is asked.
pub uninterp spec fn chain_texts(e: anyhow::Error) -> Seq<Seq<char>>;

/// `anyhow::Error::msg` makes the message the only error of the new chain:
/// the chain has one text, and it is a text that the message displays.
pub assume_specification<M>[ anyhow::Error::msg::<M> ](message: M) -> (r: anyhow::Error)
    where M: core::fmt::Display + core::fmt::Debug + Send + Sync + 'static
    ensures
        chain_texts(r).len() == 1,
        shows(message, chain_texts(r)[0]),
;

/// `anyhow::Error::downcast` hands the error back untouched when it holds no
/// value of the requested type. From an error that `anyhow::Error::msg` made
/// of a message of the requested type, it takes that message out. Nothing is
/// claimed of other errors that hold such a value.
pub assume_specification<E>[ anyhow::Error::downcast::<E> ](e: anyhow::Error) -> (r: std::result::Result<
    E,
    anyhow::Error,
>)
    where E: core::fmt::Display + core::fmt::Debug + Send + Sync + 'static
    ensures
        r matches Err(back) ==> back == e,
        forall|v: E| #[trigger] erases(v, e) ==> r is Ok && r->Ok_0 == v,
;

/// `anyhow::Error::downcast_ref` finds, in an error that `anyhow::Error::msg`
/// made of a message of the requested type, that message. Nothing is claimed
/// of other errors.
pub assume_specification<'a, E>[ anyhow::Error::downcast_ref::<E> ](e: &'a anyhow::Error) -> (r:
    Option<&'a E>)
    where E: core::fmt::Display + core::fmt::Debug + Send + Sync + 'static
    ensures
        forall|v: E| #[trigger] erases(v, *e) ==> r == Some(&v),
;

/// Calls `anyhow::Error::msg` on an owned string, which displays as its own
/// characters: the chain of the new error is that text alone.
#[verifier::external_body]
fn message_error(text: String) -> (r: anyhow::Error)
    ensures
        erases(text, r),
        chain_texts(r) == seq![text@],
{
    anyhow::Error::msg(text)
}

/// Calls `anyhow::Error::context` with an owned string. The result displays
/// the string and has the old error as its source, so the string comes first
/// in the new chain and the old chain follows.
#[verifier::external_body]
fn annotated(e: anyhow::Error, text: String) -> (r: anyhow::Error)
    ensures
        chain_texts(r) == seq![text@] + chain_texts(e),
{
    e.context(text)
}

/// Formats an `anyhow::Error` with `{}`. Its `Display` writes the head of the
/// chain and, without the alternate flag, nothing else: the chain is the
/// result followed by the rest of the chain.
#[verifier::external_body]
fn headline(e: &anyhow::Error) -> (r: String)
    ensures
        chain_texts(*e) == seq![r@] + chain_texts(*e).skip(1),
{
    e.to_string()
}

/// Walks `anyhow::Error::chain` and collects what each item displays. The
/// walk starts at the error itself, so it is never empty.
#[verifier::external_body]
fn chain_messages(e: &anyhow::Error) -> (r: Vec<String>)
    ensures
        r@.len() > 0 && texts(r@) == chain_texts(*e),
{
    e.chain().map(|cause| cause.to_string()).collect()
}

/// The text of each string, in order.
pub open spec fn texts(strings: Seq<String>) -> Seq<Seq<char>> {
    strings.map_values(|s: String| s@)
}

/// `text` is what `value` displays.
pub open spec fn shows<C: core::fmt::Display>(value: C, text: Seq<char>) -> bool {
    exists|s: String| #[trigger] to_string_from_display_ensures::<C>(&value, s) && s@ == text
}

/// `root` is what type erasure makes of `failure`.
pub open spec fn erases<E: core::fmt::Display + core::fmt::Debug + Send + Sync + 'static>(
    failure: E,
    root: anyhow::Error,
) -> bool {
    call_ensures(anyhow::Error::msg::<E>, (failure,), root)
}

/// `root` is what type erasure makes of an owned string that reads `text`.
pub open spec fn erases_text(text: Seq<char>, root: anyhow::Error) -> bool {
    exists|owned: String| owned@ == text && #[trigger] erases(owned, root)
}

/// `outcome` is what a downcast of `root` to `T` by value comes to: the value
/// that `root` was made of, where it was made of a `T`, and `root` itself
/// where the downcast fails.
pub open spec fn recovers<T: core::fmt::Display + core::fmt::Debug + Send + Sync + 'static>(
    root: anyhow::Error,
    outcome: Result<T, anyhow::Error>,
) -> bool {
    &&& call_ensures(anyhow::Error::downcast::<T>, (root,), outcome)
    &&& outcome matches Err(back) ==> back == root
    &&& forall|v: T| #[trigger] erases(v, root) ==> outcome == Ok::<T, anyhow::Error>(v)
}

/// `found` is what a downcast of `root` to `T` by reference comes to: the
/// value that `root` was made of, where it was made of a `T`.
pub open spec fn finds<T: core::fmt::Display + core::fmt::Debug + Send + Sync + 'static>(
    root: anyhow::Error,
    found: Option<&T>,
) -> bool {
    &&& call_ensures(anyhow::Error::downcast_ref::<T>, (&root,), found)
    &&& forall|v: T| #[trigger] erases(v, root) ==> found == Some(&v)
}

/// The lines of a dump, one after the other with a line feed between them.
pub open spec fn join_lines(lines: Seq<Seq<char>>) -> Seq<char>
    decreases lines.len(),
{
    if lines.len() == 0 {
        Seq::empty()
    } else if lines.len() == 1 {
        lines[0]
    } else {
        join_lines(lines.drop_last()) + seq!['\n'] + lines.last()
    }
}

/// What a chain is: its root cause and the texts of its frames, oldest first.
pub struct ChainView {
    pub root: anyhow::Error,
    pub frames: Seq<Seq<char>>,
}

impl ChainView {
    /// A chain over `root` without any frame.
    pub open spec fn bare(root: anyhow::Error) -> ChainView {
        ChainView { root, frames: Seq::empty() }
    }

    /// The chain with one more frame, which becomes the newest.
    pub open spec fn with_frame(self, text: Seq<char>) -> ChainView {
        ChainView { root: self.root, frames: self.frames.push(text) }
    }

    /// The chain with several more frames, attached in the order given.
    pub open spec fn with_frames(self, more: Seq<Seq<char>>) -> ChainView {
        ChainView { root: self.root, frames: self.frames + more }
    }

    /// The one-line summary: the newest frame, or the root cause's message
    /// where there is no frame.
    pub open spec fn summary(self) -> Seq<char> {
        if self.frames.len() > 0 {
            self.frames.last()
        } else {
            chain_texts(self.root)[0]
        }
    }

    /// The full listing: every frame, newest first, then the root cause's
    /// message and those of its nested sources.
    pub open spec fn layers(self) -> Seq<Seq<char>> {
        self.frames.reverse() + chain_texts(self.root)
    }

    /// The listing as one text, a line for each layer.
    pub open spec fn dump(self) -> Seq<char> {
        join_lines(self.layers())
    }
}

/// A root cause of erased type under its context frames.
pub struct ErrorChain {
    root: anyhow::Error,
    frames: Vec<String>,
}

impl View for ErrorChain {
    type V = ChainView;

    closed spec fn view(&self) -> ChainView {
        ChainView { root: self.root, frames: texts(self.frames@) }
    }
}

/// Joins the lines of a dump.
pub fn join(lines: &Vec<String>) -> (r: String)
    ensures
        r@ == join_lines(texts(lines@)),
{
    let mut out = String::new();
    let mut i: usize = 0;
    while i < lines.len()
        invariant
            i <= lines.len(),
            out@ == join_lines(texts(lines@).take(i as int)),
        decreases lines.len() - i,
    {
        let ghost before = texts(lines@).take(i as int);
        let ghost after = texts(lines@).take(i + 1);
        proof {
            assert(after.drop_last() == before);
            assert(after.last() == lines@[i as int]@);
        }
        if i > 0 {
            proof {
                reveal_strlit("\n");
                assert("\n"@ == seq!['\n']);
            }
            out.append("\n");
        }
        out.append(lines[i].as_str());
        proof {
            if i == 0 {
                assert(out@ == lines@[0]@);
            }
        }
        i = i + 1;
    }
    proof {
        assert(texts(lines@).take(lines@.len() as int) == texts(lines@));
    }
    out
}

impl ErrorChain {
    /// Erases the type of `failure` and makes it the root cause of a chain
    /// without frames.
    pub fn new<E: core::fmt::Display + core::fmt::Debug + Send + Sync + 'static>(failure: E) -> (r:
        Self)
        ensures
            erases(failure, r@.root),
            r@.frames == Seq::<Seq<char>>::empty(),
            shows(failure, r@.summary()),
    {
        let root = anyhow::Error::msg(failure);
        ErrorChain { root, frames: Vec::new() }
    }

    /// A chain without frames whose root cause is the plain message `text`,
    /// held as a `String`.
    pub fn from_msg(text: &str) -> (r: Self)
        ensures
            chain_texts(r@.root) == seq![text@],
            r@.frames == Seq::<Seq<char>>::empty(),
            erases_text(text@, r@.root),
    {
        let owned = text.to_string();
        let root = message_error(owned);
        proof {
            assert(erases(owned, root));
        }
        ErrorChain { root, frames: Vec::new() }
    }

    /// A chain without frames over an error that is already erased.
    pub fn from_anyhow(root: anyhow::Error) -> (r: Self)
        ensures
            r@ == ChainView::bare(root),
    {
        let r = ErrorChain { root, frames: Vec::new() };
        proof {
            assert(r@.frames =~= Seq::empty());
        }
        r
    }

    /// Attaches `text` as the newest frame.
    pub fn context(self, text: String) -> (r: Self)
        ensures
            r@ == self@.with_frame(text@),
    {
        let mut frames = self.frames;
        frames.push(text);
        proof {
            assert(texts(frames@) == texts(self.frames@).push(text@));
        }
        ErrorChain { root: self.root, frames }
    }

    /// Takes the root cause out as a `T`. Where the root cause is no `T`, the
    /// chain comes back as it was.
    pub fn downcast<T: core::fmt::Display + core::fmt::Debug + Send + Sync + 'static>(self) -> (r:
        Result<T, ErrorChain>)
        ensures
            r matches Ok(value) ==> recovers::<T>(self@.root, Ok(value)),
            r matches Err(back) ==> back@ == self@ && recovers::<T>(
                self@.root,
                Err(self@.root),
            ),
            forall|v: T| #[trigger] erases(v, self@.root) ==> r == Ok::<T, ErrorChain>(v),
    {
        match self.root.downcast::<T>() {
            Ok(value) => Ok(value),
            Err(root) => Err(ErrorChain { root, frames: self.frames }),
        }
    }

    /// Looks at the root cause as a `T`. The frames are never looked at.
    pub fn downcast_ref<T: core::fmt::Display + core::fmt::Debug + Send + Sync + 'static>(
        &self,
    ) -> (r: Option<&T>)
        ensures
            finds::<T>(self@.root, r),
            forall|v: T| #[trigger] erases(v, self@.root) ==> r == Some(&v),
    {
        self.root.downcast_ref::<T>()
    }

    /// The one-line summary.
    pub fn to_string(&self) -> (r: String)
        ensures
            r@ == self@.summary(),
    {
        let n = self.frames.len();
        if n > 0 {
            self.frames[n - 1].clone()
        } else {
            headline(&self.root)
        }
    }

    /// The full listing, newest frame first.
    pub fn layers(&self) -> (r: Vec<String>)
        ensures
            texts(r@) == self@.layers(),
            r@.len() > self@.frames.len(),
    {
        let mut out: Vec<String> = Vec::new();
        let n = self.frames.len();
        let mut i: usize = n;
        while i > 0
            invariant
                n == self.frames.len(),
                i <= n,
                out@.len() == n - i,
                forall|k: int| 0 <= k < out@.len() ==> out@[k] == self.frames@[n - 1 - k],
            decreases i,
        {
            i = i - 1;
            out.push(self.frames[i].clone());
        }
        let mut causes = chain_messages(&self.root);
        proof {
            assert(texts(out@) == texts(self.frames@).reverse());
            assert(texts(out@ + causes@) == texts(out@) + texts(causes@));
        }
        out.append(&mut causes);
        out
    }

    /// The listing as one text, a line for each layer.
    pub fn to_debug_string(&self) -> (r: String)
        ensures
            r@ == self@.dump(),
    {
        let lines = self.layers();
        join(&lines)
    }

    /// Folds the frames into the erased error, oldest first, so that its
    /// chain reads as the listing does.
    pub fn into_anyhow(self) -> (r: anyhow::Error)
        ensures
            chain_texts(r) == self@.layers(),
    {
        let ErrorChain { root, frames } = self;
        let mut error = root;
        let mut i: usize = 0;
        while i < frames.len()
            invariant
                i <= frames.len(),
                chain_texts(error) == texts(frames@).take(i as int).reverse() + chain_texts(root),
            decreases frames.len() - i,
        {
            let ghost before = texts(frames@).take(i as int);
            let ghost after = texts(frames@).take(i + 1);
            proof {
                assert(after.reverse() == seq![frames@[i as int]@] + before.reverse());
            }
            error = annotated(error, frames[i].clone());
            i = i + 1;
        }
        proof {
            assert(texts(frames@).take(frames@.len() as int) == texts(frames@));
        }
        error
    }
}

} // verus!
