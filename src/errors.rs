use vstd::prelude::*;

verus! {

/// One layer of a cause chain: what an error value says about itself.
pub ghost struct ErrorLayer {
    pub description: Seq<char>,
    pub detail: Option<Seq<char>>,
    pub is_human: bool,
}

/// The text held by an optional string.
pub open spec fn opt_text(o: Option<String>) -> Option<Seq<char>> {
    match o {
        Some(s) => Some(s@),
        None => None,
    }
}

/// The whole cause chain of an error value, outermost layer first.
pub open spec fn chain_of<E: CargoError>(e: &E) -> Seq<ErrorLayer> {
    seq![e.head()] + e.causes()
}

/// The chain built by wrapping `original` under the outer layer of `update`.
pub open spec fn chained(original: Seq<ErrorLayer>, update: ErrorLayer) -> Seq<ErrorLayer> {
    seq![update] + original
}

/// An error value: a description, an optional detail, an optional cause and
/// a flag saying whether the description may be shown to a user verbatim.
pub trait CargoError: Sized {
    /// The outermost layer of this value.
    spec fn head(&self) -> ErrorLayer;

    /// The layers of the cause chain below the outermost one.
    spec fn causes(&self) -> Seq<ErrorLayer>;

    /// A one-line summary.
    fn description(&self) -> (r: String)
        ensures
            r@ == self.head().description,
    ;

    /// Further context, if any.
    fn detail(&self) -> (r: Option<String>)
        ensures
            opt_text(r) == self.head().detail,
    ;

    /// The error this one wraps, if any, borrowed.
    fn cause(&self) -> (r: Option<&ConcreteCargoError>)
        ensures
            match r {
                Some(c) => c.layers() == self.causes(),
                None => self.causes().len() == 0,
            },
    ;

    /// Whether the description may be shown to a user verbatim.
    fn is_human(&self) -> (r: bool)
        ensures
            r == self.head().is_human,
    ;

    /// Converts this value into another representation.
    fn to_error<E: FromError<Self>>(self) -> (r: E)
        ensures
            E::converted(self, r),
    {
        E::from_error(self)
    }

    /// This value in its boxed, owned form.
    fn box_error(self) -> (r: Box<ConcreteCargoError>)
        ensures
            r.layers() == seq![self.head()] + self.causes(),
    {
        Box::new(self.concrete())
    }

    /// An owned copy of the whole chain, in the one canonical shape.
    fn concrete(&self) -> (r: ConcreteCargoError)
        ensures
            r.layers() == seq![self.head()] + self.causes(),
    {
        let cause = match self.cause() {
            Some(c) => Some(Box::new(c.snapshot())),
            None => None,
        };
        let r = ConcreteCargoError {
            description: self.description(),
            detail: self.detail(),
            cause,
            is_human: self.is_human(),
        };
        assert(r.layers() =~= seq![self.head()] + self.causes());
        r
    }
}

/// Conversion of an error value into another representation.
pub trait FromError<E>: Sized {
    /// Whether `r` is what converting `error` gives.
    spec fn converted(error: E, r: Self) -> bool;

    fn from_error(error: E) -> (r: Self)
        ensures
            Self::converted(error, r),
    ;
}

/// The canonical owned error value.
pub struct ConcreteCargoError {
    pub description: String,
    pub detail: Option<String>,
    pub cause: Option<Box<ConcreteCargoError>>,
    pub is_human: bool,
}

impl ConcreteCargoError {
    /// The outermost layer held in the fields.
    pub open spec fn top(&self) -> ErrorLayer {
        ErrorLayer {
            description: self.description@,
            detail: opt_text(self.detail),
            is_human: self.is_human,
        }
    }

    /// The whole cause chain, outermost layer first.
    pub open spec fn layers(&self) -> Seq<ErrorLayer>
        decreases self,
    {
        seq![self.top()] + match self.cause {
            Some(c) => c.layers(),
            None => Seq::empty(),
        }
    }

    /// A deep copy of this value and of its whole cause chain.
    pub fn snapshot(&self) -> (r: ConcreteCargoError)
        ensures
            r.layers() == self.layers(),
        decreases self,
    {
        let cause = match &self.cause {
            Some(c) => Some(Box::new(c.snapshot())),
            None => None,
        };
        let r = ConcreteCargoError {
            description: self.description.clone(),
            detail: self.detail.clone(),
            cause,
            is_human: self.is_human,
        };
        assert(r.layers() =~= self.layers());
        r
    }
}

impl CargoError for ConcreteCargoError {
    open spec fn head(&self) -> ErrorLayer {
        self.top()
    }

    open spec fn causes(&self) -> Seq<ErrorLayer> {
        match self.cause {
            Some(c) => c.layers(),
            None => Seq::empty(),
        }
    }

    fn description(&self) -> (r: String) {
        self.description.clone()
    }

    fn detail(&self) -> (r: Option<String>) {
        self.detail.clone()
    }

    fn cause(&self) -> (r: Option<&ConcreteCargoError>) {
        match &self.cause {
            Some(c) => Some(&**c),
            None => None,
        }
    }

    fn is_human(&self) -> (r: bool) {
        self.is_human
    }
}

/// The chain of a concrete value starts with its outer layer and goes on
/// with its causes.
pub broadcast proof fn lemma_layers_unfold(e: &ConcreteCargoError)
    ensures
        (#[trigger] e.layers()).len() >= 1,
        e.layers()[0] == e.top(),
        e.layers().drop_first() == e.causes(),
{
    assert(e.layers().drop_first() =~= e.causes());
}

/// An error value in its boxed, owned form.
pub type BoxedError = Box<ConcreteCargoError>;

/// A computation that fails with a boxed error value.
pub type CargoResult<T> = Result<T, BoxedError>;

impl CargoError for Box<ConcreteCargoError> {
    open spec fn head(&self) -> ErrorLayer {
        (**self).top()
    }

    open spec fn causes(&self) -> Seq<ErrorLayer> {
        (**self).causes()
    }

    fn description(&self) -> (r: String) {
        (**self).description()
    }

    fn detail(&self) -> (r: Option<String>) {
        (**self).detail()
    }

    fn cause(&self) -> (r: Option<&ConcreteCargoError>) {
        (**self).cause()
    }

    fn is_human(&self) -> (r: bool) {
        (**self).is_human()
    }

    fn box_error(self) -> (r: Box<ConcreteCargoError>) {
        self
    }
}

impl<E: CargoError> FromError<E> for Box<ConcreteCargoError> {
    open spec fn converted(error: E, r: Self) -> bool {
        r.layers() == chain_of(&error)
    }

    fn from_error(error: E) -> (r: Self) {
        error.box_error()
    }
}

/// The single layer of an error made from plain text.
pub open spec fn plain_layer(text: Seq<char>, detail: Option<Seq<char>>, is_human: bool) -> ErrorLayer {
    ErrorLayer { description: text, detail, is_human }
}

fn plain(description: String, detail: Option<String>, is_human: bool) -> (r: BoxedError)
    ensures
        r.layers() == seq![plain_layer(description@, opt_text(detail), is_human)],
{
    let r = Box::new(ConcreteCargoError { description, detail, cause: None, is_human });
    assert(r.layers() =~= seq![plain_layer(description@, opt_text(detail), is_human)]);
    r
}

/// An internal error with a free-form detail; not shown to users verbatim.
pub fn internal_error(text: &str, detail: &str) -> (r: BoxedError)
    ensures
        r.layers() == seq![plain_layer(text@, Some(detail@), false)],
{
    plain(text.to_owned(), Some(detail.to_owned()), false)
}

/// An internal error; not shown to users verbatim.
pub fn error(text: &str) -> (r: BoxedError)
    ensures
        r.layers() == seq![plain_layer(text@, None, false)],
{
    plain(text.to_owned(), None, false)
}

/// An error whose description is meant for the user.
pub fn human(text: &str) -> (r: BoxedError)
    ensures
        r.layers() == seq![plain_layer(text@, None, true)],
{
    plain(text.to_owned(), None, true)
}

/// Wraps `original` as the cause of a snapshot of `update`. The outer layer
/// is that of `update`; whatever cause `update` had is replaced.
pub fn chain<E: CargoError>(original: BoxedError, update: E) -> (r: BoxedError)
    ensures
        r.layers() == chained(original.layers(), update.head()),
{
    let mut concrete = update.concrete();
    assert(concrete.layers()[0] == update.head());
    concrete.cause = Some(original);
    let r = Box::new(concrete);
    assert(r.layers() =~= chained(original.layers(), update.head()));
    r
}

/// What a boxed result holds: its success value, or its error's chain.
pub open spec fn boxed_outcome<T>(r: &CargoResult<T>) -> Result<T, Seq<ErrorLayer>> {
    match r {
        Ok(v) => Ok(*v),
        Err(e) => Err(e.layers()),
    }
}

/// Boxing the error of a result.
pub trait BoxError<T>: Sized {
    /// What this result holds: its success value, or its error's chain.
    spec fn outcome(&self) -> Result<T, Seq<ErrorLayer>>;

    fn box_error(self) -> (r: CargoResult<T>)
        ensures
            boxed_outcome(&r) == self.outcome(),
    ;
}

/// Adding context to the error of a result.
pub trait ChainError<T>: BoxError<T> {
    /// On failure, wraps the error as the cause of a snapshot of what
    /// `callback` builds. On success the value is kept and `callback` is
    /// never called, so nothing is asked of it.
    fn chain_error<U: CargoError, F: FnOnce() -> U>(self, callback: F) -> (r: CargoResult<T>)
        requires
            self.outcome() is Err ==> callback.requires(()),
        ensures
            match self.outcome() {
                Ok(v) => r == Ok::<T, BoxedError>(v),
                Err(original) => exists|u: U|
                    #![trigger callback.ensures((), u)]
                    callback.ensures((), u) && boxed_outcome(&r) == Err::<T, Seq<ErrorLayer>>(
                        chained(original, u.head()),
                    ),
            },
    ;
}

impl<T, E: CargoError> BoxError<T> for Result<T, E> {
    open spec fn outcome(&self) -> Result<T, Seq<ErrorLayer>> {
        match self {
            Ok(v) => Ok(*v),
            Err(e) => Err(chain_of(e)),
        }
    }

    fn box_error(self) -> (r: CargoResult<T>) {
        match self {
            Ok(v) => Ok(v),
            Err(e) => Err(e.box_error()),
        }
    }
}

impl<T, E: CargoError> ChainError<T> for Result<T, E> {
    fn chain_error<U: CargoError, F: FnOnce() -> U>(self, callback: F) -> (r: CargoResult<T>) {
        match self {
            Ok(v) => Ok(v),
            Err(e) => {
                let update = callback();
                Err(chain(e.box_error(), update))
            },
        }
    }
}

} // verus!
