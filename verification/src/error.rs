//! The typed error container and the traits that lead into it.

use crate::chain::{
    chain_texts, erases, erases_text, finds, recovers, shows, texts, ChainView, ErrorChain,
};
use crate::private::Sealed;
use core::fmt::{Debug, Display};
use core::marker::PhantomData;
use vstd::prelude::*;
use vstd::std_specs::convert::FromSpecImpl;

verus! {

/// A result whose failure is a [`TError`]. Without a second argument the tag
/// is `()`, to be replaced by a primary error type later.
pub type Result<T, E = ()> = core::result::Result<T, TError<E>>;

/// An error chain tagged with the primary error type `E` that a caller is
/// meant to match on. The tag is known to the compiler only: the container
/// holds the chain and nothing else.
pub struct TError<E = ()> {
    phantom: PhantomData<E>,
    chain: ErrorChain,
}

impl<E> View for TError<E> {
    type V = ChainView;

    closed spec fn view(&self) -> ChainView {
        self.chain@
    }
}

/// `out` is what the conversion of `failure` comes to.
pub open spec fn converts<EIn: Into<EOut>, EOut>(failure: EIn, out: EOut) -> bool {
    call_ensures(<EIn as Into<EOut>>::into, (failure,), out)
}

/// `value` is what the catch-all rule of `E` makes of `chain`, once its
/// frames are folded into the erased error.
pub open spec fn absorbs<E: DefaultError>(chain: ChainView, value: E) -> bool {
    exists|err: anyhow::Error| #[trigger]
        call_ensures(E::from_anyhow, (err,), value) && chain_texts(err) == chain.layers()
}

/// `value` is what `chain` comes to as an `E`: its root cause where that is an
/// `E`, and what the catch-all rule makes of the chain where it is not.
pub open spec fn settles<E: DefaultError + Debug + Display + Send + Sync + 'static>(
    chain: ChainView,
    value: E,
) -> bool {
    ||| recovers::<E>(chain.root, Ok(value))
    ||| recovers::<E>(chain.root, Err(chain.root)) && absorbs(chain, value)
}

impl<E> TError<E> {
    /// The container as it reads under the tag `F`.
    pub closed spec fn retagged<F>(self) -> TError<F> {
        TError { phantom: PhantomData, chain: self.chain }
    }

    /// Tags an erased error, which becomes the root cause of a chain without
    /// frames.
    pub fn from_anyhow(error: anyhow::Error) -> (r: Self)
        ensures
            r@ == ChainView::bare(error),
    {
        TError { phantom: PhantomData, chain: ErrorChain::from_anyhow(error) }
    }

    /// A container without frames whose root cause is the plain message
    /// `msg`.
    pub fn from_msg(msg: &str) -> (r: Self)
        ensures
            chain_texts(r@.root) == seq![msg@],
            r@.frames == Seq::<Seq<char>>::empty(),
            erases_text(msg@, r@.root),
    {
        TError { phantom: PhantomData, chain: ErrorChain::from_msg(msg) }
    }

    /// Tags an existing chain.
    pub fn from_chain(chain: ErrorChain) -> (r: Self)
        ensures
            r@ == chain@,
    {
        TError { phantom: PhantomData, chain }
    }

    /// Gives up the tag.
    pub fn into_chain(self) -> (r: ErrorChain)
        ensures
            r@ == self@,
    {
        self.chain
    }

    /// Looks at the root cause as a `T`, whatever the tag.
    pub fn downcast_ref<T: Debug + Display + Send + Sync + 'static>(&self) -> (r: Option<&T>)
        ensures
            finds::<T>(self@.root, r),
            forall|v: T| #[trigger] erases(v, self@.root) ==> r == Some(&v),
    {
        self.chain.downcast_ref::<T>()
    }

    /// Takes the root cause out as a `T`, whatever the tag. Where the root
    /// cause is no `T`, the container comes back as it was.
    pub fn downcast<T: Debug + Display + Send + Sync + 'static>(self) -> (r: core::result::Result<
        T,
        Self,
    >)
        ensures
            r matches Ok(value) ==> recovers::<T>(self@.root, Ok(value)),
            r matches Err(back) ==> back@ == self@ && recovers::<T>(
                self@.root,
                Err(self@.root),
            ),
            forall|v: T| #[trigger] erases(v, self@.root) ==> r == Ok::<T, Self>(v),
    {
        match self.chain.downcast::<T>() {
            Ok(value) => Ok(value),
            Err(chain) => Err(TError { phantom: PhantomData, chain }),
        }
    }

    /// Attaches `context` as the newest frame.
    pub fn context(self, context: &str) -> (r: TError<E>)
        ensures
            r@ == self@.with_frame(context@),
    {
        TError { phantom: PhantomData, chain: self.chain.context(context.to_string()) }
    }

    /// Attaches the text that `context` makes as the newest frame.
    pub fn with_context<F>(self, context: F) -> (r: TError<E>) where F: FnOnce() -> String
        requires
            context.requires(()),
        ensures
            exists|made: String| #[trigger]
                context.ensures((), made) && r@ == self@.with_frame(made@),
    {
        TError { phantom: PhantomData, chain: self.chain.context(context()) }
    }

    /// Changes the tag and nothing else.
    pub fn change_err<T>(self) -> (r: TError<T>)
        ensures
            r == self.retagged::<T>(),
            r@ == self@,
    {
        TError::<T> { phantom: PhantomData, chain: self.chain }
    }

    /// Folds the frames into the erased error, oldest first, so that its
    /// chain reads as the listing does.
    pub fn into_anyhow(self) -> (r: anyhow::Error)
        ensures
            chain_texts(r) == self@.layers(),
    {
        self.chain.into_anyhow()
    }

    /// The one-line summary: the newest frame, or the root cause's message
    /// where there is no frame.
    pub fn to_string(&self) -> (r: String)
        ensures
            r@ == self@.summary(),
    {
        self.chain.to_string()
    }

    /// The full listing: every frame, newest first, then the root cause's
    /// message and those of its nested sources.
    pub fn layers(&self) -> (r: Vec<String>)
        ensures
            texts(r@) == self@.layers(),
            r@.len() > self@.frames.len(),
    {
        self.chain.layers()
    }

    /// The listing as one text, a line for each layer.
    pub fn to_debug_string(&self) -> (r: String)
        ensures
            r@ == self@.dump(),
    {
        self.chain.to_debug_string()
    }
}

impl<E: Debug + Display + Send + Sync + 'static> TError<E> {
    /// Takes the root cause out as the primary type. Where the root cause is
    /// of another type, the container comes back as it was.
    pub fn try_get(self) -> (r: core::result::Result<E, TError<E>>)
        ensures
            r matches Ok(value) ==> recovers::<E>(self@.root, Ok(value)),
            r matches Err(back) ==> back@ == self@ && recovers::<E>(
                self@.root,
                Err(self@.root),
            ),
            forall|v: E| #[trigger] erases(v, self@.root) ==> r == Ok::<E, TError<E>>(v),
    {
        match self.chain.downcast::<E>() {
            Ok(value) => Ok(value),
            Err(chain) => Err(TError { phantom: PhantomData, chain }),
        }
    }

    /// Looks at the root cause as the primary type.
    pub fn get_ref(&self) -> (r: Option<&E>)
        ensures
            finds::<E>(self@.root, r),
            forall|v: E| #[trigger] erases(v, self@.root) ==> r == Some(&v),
    {
        self.chain.downcast_ref::<E>()
    }
}

/// Changing the tag and changing it back gives the container that there
/// was: under every tag it reads the same, and after the round trip nothing
/// tells it from the first.
pub proof fn lemma_retag_round_trip<E, F>(t: TError<E>)
    ensures
        t.retagged::<F>()@ == t@,
        t.retagged::<F>().retagged::<E>()@ == t@,
        t.retagged::<F>().retagged::<E>() == t,
{
}

/// The catch-all rule of a primary error type: how it takes in a chain that
/// holds none of its values. The rule has to work on every chain.
pub trait DefaultError: Sized {
    /// Makes a value of the primary type out of `err`.
    fn from_anyhow(err: anyhow::Error) -> Self;
}

impl<E: DefaultError + Debug + Display + Send + Sync + 'static> TError<E> {
    /// The container as a value of the primary type: its root cause where
    /// that is an `E`, else what the catch-all rule makes of the chain.
    pub fn get(self) -> (r: E)
        ensures
            settles(self@, r),
            forall|v: E| #[trigger] erases(v, self@.root) ==> r == v,
    {
        Self::or_default(self.try_get())
    }

    /// Finishes a `try_get`: the value that it found, or what the catch-all
    /// rule makes of the container that it gave back.
    pub fn or_default(outcome: core::result::Result<E, TError<E>>) -> (r: E)
        ensures
            match outcome {
                Ok(value) => r == value,
                Err(rest) => absorbs(rest@, r),
            },
    {
        match outcome {
            Ok(value) => value,
            Err(rest) => E::from_anyhow(rest.into_anyhow()),
        }
    }
}

impl<T> From<TError<T>> for anyhow::Error {
    /// Folds the frames into the erased error, as `into_anyhow` does.
    fn from(err: TError<T>) -> (r: Self)
        ensures
            chain_texts(r) == err@.layers(),
    {
        err.into_anyhow()
    }
}

impl<T> FromSpecImpl<TError<T>> for anyhow::Error {
    open spec fn obeys_from_spec() -> bool {
        false
    }

    open spec fn from_spec(err: TError<T>) -> Self {
        choose|r: Self| chain_texts(r) == err@.layers()
    }
}

impl<SRC: Debug + Display + Send + Sync + 'static, DST> From<SRC> for TError<DST> {
    /// Erases the type of `err` and makes it the root cause of a chain
    /// without frames.
    fn from(err: SRC) -> (r: Self)
        ensures
            erases(err, r@.root),
            r@.frames == Seq::<Seq<char>>::empty(),
            shows(err, r@.summary()),
    {
        TError { phantom: PhantomData, chain: ErrorChain::new(err) }
    }
}

impl<SRC: Debug + Display + Send + Sync + 'static, DST> FromSpecImpl<SRC> for TError<DST> {
    open spec fn obeys_from_spec() -> bool {
        false
    }

    open spec fn from_spec(err: SRC) -> Self {
        choose|r: Self| erases(err, r@.root) && r@.frames == Seq::<Seq<char>>::empty()
    }
}

/// Context for the failure of a plain `Result`, which enters a container on
/// the way.
pub trait Context<T, E, X: Display>: Sealed + Sized {
    /// `self` is a success, and `r` is the same success.
    spec fn passed(self, r: core::result::Result<T, TError<X>>) -> bool;

    /// `self` is a failure, and `r` is that failure erased, tagged with `X`
    /// and put under the one frame `text`.
    spec fn framed(self, text: Seq<char>, r: core::result::Result<T, TError<X>>) -> bool;

    /// On failure, erases the failure's type, tags it with `X` and attaches
    /// `context` as its one frame.
    fn context(self, context: &str) -> (r: core::result::Result<T, TError<X>>)
        ensures
            self.passed(r) || self.framed(context@, r),
    ;

    /// As `context`, with the text that `f` makes. `f` is called on failure
    /// only.
    fn with_context<F>(self, f: F) -> (r: core::result::Result<T, TError<X>>) where
        F: FnOnce() -> String,

        requires
            f.requires(()),
        ensures
            self.passed(r) || exists|made: String| #[trigger]
                f.ensures((), made) && self.framed(made@, r),
    ;
}

impl<T, E, X> Context<T, E, X> for core::result::Result<T, E> where
    E: Debug + Display + Send + Sync + 'static,
    X: Display,
{
    open spec fn passed(self, r: core::result::Result<T, TError<X>>) -> bool {
        self matches Ok(value) && r == Ok::<T, TError<X>>(value)
    }

    open spec fn framed(self, text: Seq<char>, r: core::result::Result<T, TError<X>>) -> bool {
        self matches Err(failure) && r matches Err(e) && erases(failure, e@.root) && e@.frames
            == seq![text]
    }

    fn context(self, context: &str) -> (r: core::result::Result<T, TError<X>>) {
        match self {
            Ok(value) => Ok(value),
            Err(failure) => {
                let chain = ErrorChain::new(failure).context(context.to_string());
                Err(TError { phantom: PhantomData, chain })
            },
        }
    }

    fn with_context<F>(self, f: F) -> (r: core::result::Result<T, TError<X>>) where
        F: FnOnce() -> String,
    {
        match self {
            Ok(value) => Ok(value),
            Err(failure) => {
                let made = f();
                let chain = ErrorChain::new(failure).context(made);
                let r = Err(TError { phantom: PhantomData, chain });
                proof {
                    assert(f.ensures((), made) && self.framed(made@, r));
                }
                r
            },
        }
    }
}

/// The way from a plain `Result` into a container tagged with the error type
/// that its failure converts into.
pub trait IntoTError<T, E>: Sealed {
    /// On failure, converts the failure into an `E`, erases its type and tags
    /// it with `E`.
    fn terror(self) -> core::result::Result<T, TError<E>>;
}

impl<T, EIn, EOut> IntoTError<T, EOut> for core::result::Result<T, EIn> where
    EIn: Into<EOut>,
    EOut: Debug + Display + Send + Sync + 'static,
{
    fn terror(self) -> (r: core::result::Result<T, TError<EOut>>)
        ensures
            match self {
                Ok(value) => r == Ok::<T, TError<EOut>>(value),
                Err(failure) => r matches Err(e) && e@.frames.len() == 0 && exists|out: EOut|
                    #[trigger] converts(failure, out) && erases(out, e@.root),
            },
    {
        match self {
            Ok(value) => Ok(value),
            Err(failure) => {
                let out: EOut = failure.into();
                assert(converts(failure, out));
                let chain = ErrorChain::new(out);
                assert(erases(out, chain@.root));
                Err(TError { phantom: PhantomData, chain })
            },
        }
    }
}

} // verus!
