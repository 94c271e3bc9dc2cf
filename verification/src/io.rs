//! A wrapper that carries a value from one effectful step to the next, and
//! hands it out only to the function that is to work on it.
use vstd::prelude::*;

verus! {

/// A value that came from the outside, or is on its way there.
#[derive(Clone, Copy)]
pub struct IO<T>(T);

impl<T> View for IO<T> {
    type V = T;

    /// The value carried.
    closed spec fn view(&self) -> T {
        self.0
    }
}

impl<T> IO<T> {
    /// Wraps a value.
    pub fn new(inner: T) -> (io: Self)
        ensures
            io@ == inner,
    {
        Self(inner)
    }

    /// Wraps what `f` returns.
    pub fn init<U, F>(f: F) -> (io: IO<U>) where F: FnOnce() -> U
        requires
            f.requires(()),
        ensures
            f.ensures((), io@),
    {
        IO(f())
    }

    /// Hands the value out.
    pub fn raw(self) -> (inner: T)
        ensures
            inner == self@,
    {
        self.0
    }

    /// Wraps what `f` returns, if it succeeds, and passes its error on
    /// otherwise.
    pub fn init_and_then<U, F, E>(f: F) -> (r: Result<IO<U>, E>) where F: FnOnce() -> Result<U, E>
        requires
            f.requires(()),
        ensures
            match r {
                Ok(io) => f.ensures((), Ok(io@)),
                Err(e) => f.ensures((), Err(e)),
            },
    {
        match f() {
            Ok(inner) => Ok(IO(inner)),
            Err(e) => Err(e),
        }
    }

    /// Applies `f` to the value, and wraps what it returns.
    pub fn map<U, F: FnOnce(T) -> U>(self, f: F) -> (io: IO<U>)
        requires
            f.requires((self@,)),
        ensures
            f.ensures((self@,), io@),
    {
        IO(f(self.0))
    }

    /// Applies `f` to the value, wraps what it returns if it succeeds, and
    /// passes its error on otherwise.
    pub fn and_then<U, F, E>(self, f: F) -> (r: Result<IO<U>, E>) where
        F: FnOnce(T) -> Result<U, E>,

        requires
            f.requires((self@,)),
        ensures
            match r {
                Ok(io) => f.ensures((self@,), Ok(io@)),
                Err(e) => f.ensures((self@,), Err(e)),
            },
    {
        match f(self.0) {
            Ok(inner) => Ok(IO(inner)),
            Err(e) => Err(e),
        }
    }

    /// Applies `f`, which wraps its own result, to the value.
    pub fn flat_map<U, F: FnOnce(T) -> IO<U>>(self, f: F) -> (io: IO<U>)
        requires
            f.requires((self@,)),
        ensures
            f.ensures((self@,), io),
    {
        f(self.0)
    }

    /// Hands the value to `f`, which returns nothing.
    pub fn consume<F: FnOnce(T)>(self, f: F)
        requires
            f.requires((self@,)),
        ensures
            f.ensures((self@,), ()),
    {
        f(self.0);
    }

    /// Hands the value to `f`, and returns whether `f` succeeded.
    pub fn consume_and_then<F, E>(self, f: F) -> (r: Result<(), E>) where
        F: FnOnce(T) -> Result<(), E>,

        requires
            f.requires((self@,)),
        ensures
            f.ensures((self@,), r),
    {
        f(self.0)
    }

    /// A wrapper of a reference to the value.
    pub fn as_ref(&self) -> (io: IO<&T>)
        ensures
            *io@ == self@,
    {
        IO(&self.0)
    }

    /// A wrapper of a mutable reference to the value: what is written
    /// through it is what this wrapper carries afterwards.
    pub fn as_mut(&mut self) -> (io: IO<&mut T>)
        ensures
            *io@ == old(self)@,
            final(self)@ == *final(io@),
    {
        IO(&mut self.0)
    }
}

impl<'a, T> From<&'a IO<T>> for IO<&'a T> {
    fn from(io: &'a IO<T>) -> (r: Self) {
        let r = IO(&io.0);
        assert(*r@ == io@);
        r
    }
}

impl<'a, T> vstd::std_specs::convert::FromSpecImpl<&'a IO<T>> for IO<&'a T> {
    open spec fn obeys_from_spec() -> bool {
        true
    }

    open spec fn from_spec(io: &'a IO<T>) -> Self {
        choose|r: IO<&'a T>| *r@ == io@
    }
}

/// The wrapper that `from` makes of a borrowed wrapper carries a reference
/// to the same value.
pub proof fn from_borrows_the_value<'a, T>(io: &'a IO<T>)
    ensures
        *(<IO<&'a T> as vstd::std_specs::convert::FromSpec<&'a IO<T>>>::from_spec(io))@ == io@,
{
    let r: IO<&'a T> = IO(&io.0);
    assert(*r@ == io@);
}

/// Turns a wrapped tuple into a tuple of wrapped values.
pub trait Unzip {
    type Output;

    fn unzip(self) -> Self::Output;
}

/// Turns a tuple of wrapped values into a wrapped tuple.
pub trait Join {
    type Output;

    fn join(self) -> Self::Output;
}

impl<A, B> Unzip for IO<(A, B)> {
    type Output = (IO<A>, IO<B>);

    fn unzip(self) -> (r: (IO<A>, IO<B>))
        ensures
            r.0@ == self@.0,
            r.1@ == self@.1,
    {
        let inner = self.0;
        (IO(inner.0), IO(inner.1))
    }
}

impl<A, B, C> Unzip for IO<(A, B, C)> {
    type Output = (IO<A>, IO<B>, IO<C>);

    fn unzip(self) -> (r: (IO<A>, IO<B>, IO<C>))
        ensures
            r.0@ == self@.0,
            r.1@ == self@.1,
            r.2@ == self@.2,
    {
        let inner = self.0;
        (IO(inner.0), IO(inner.1), IO(inner.2))
    }
}

impl<A, B, C, D> Unzip for IO<(A, B, C, D)> {
    type Output = (IO<A>, IO<B>, IO<C>, IO<D>);

    fn unzip(self) -> (r: (IO<A>, IO<B>, IO<C>, IO<D>))
        ensures
            r.0@ == self@.0,
            r.1@ == self@.1,
            r.2@ == self@.2,
            r.3@ == self@.3,
    {
        let inner = self.0;
        (IO(inner.0), IO(inner.1), IO(inner.2), IO(inner.3))
    }
}

impl<A, B, C, D, E> Unzip for IO<(A, B, C, D, E)> {
    type Output = (IO<A>, IO<B>, IO<C>, IO<D>, IO<E>);

    fn unzip(self) -> (r: (IO<A>, IO<B>, IO<C>, IO<D>, IO<E>))
        ensures
            r.0@ == self@.0,
            r.1@ == self@.1,
            r.2@ == self@.2,
            r.3@ == self@.3,
            r.4@ == self@.4,
    {
        let inner = self.0;
        (IO(inner.0), IO(inner.1), IO(inner.2), IO(inner.3), IO(inner.4))
    }
}

impl<A, B, C, D, E, F> Unzip for IO<(A, B, C, D, E, F)> {
    type Output = (IO<A>, IO<B>, IO<C>, IO<D>, IO<E>, IO<F>);

    fn unzip(self) -> (r: (IO<A>, IO<B>, IO<C>, IO<D>, IO<E>, IO<F>))
        ensures
            r.0@ == self@.0,
            r.1@ == self@.1,
            r.2@ == self@.2,
            r.3@ == self@.3,
            r.4@ == self@.4,
            r.5@ == self@.5,
    {
        let inner = self.0;
        (IO(inner.0), IO(inner.1), IO(inner.2), IO(inner.3), IO(inner.4), IO(inner.5))
    }
}

impl<A, B> Join for (IO<A>, IO<B>) {
    type Output = IO<(A, B)>;

    fn join(self) -> (r: IO<(A, B)>)
        ensures
            r@ == (self.0@, self.1@),
    {
        IO((self.0.0, self.1.0))
    }
}

impl<A, B, C> Join for (IO<A>, IO<B>, IO<C>) {
    type Output = IO<(A, B, C)>;

    fn join(self) -> (r: IO<(A, B, C)>)
        ensures
            r@ == (self.0@, self.1@, self.2@),
    {
        IO((self.0.0, self.1.0, self.2.0))
    }
}

impl<A, B, C, D> Join for (IO<A>, IO<B>, IO<C>, IO<D>) {
    type Output = IO<(A, B, C, D)>;

    fn join(self) -> (r: IO<(A, B, C, D)>)
        ensures
            r@ == (self.0@, self.1@, self.2@, self.3@),
    {
        IO((self.0.0, self.1.0, self.2.0, self.3.0))
    }
}

impl<A, B, C, D, E> Join for (IO<A>, IO<B>, IO<C>, IO<D>, IO<E>) {
    type Output = IO<(A, B, C, D, E)>;

    fn join(self) -> (r: IO<(A, B, C, D, E)>)
        ensures
            r@ == (self.0@, self.1@, self.2@, self.3@, self.4@),
    {
        IO((self.0.0, self.1.0, self.2.0, self.3.0, self.4.0))
    }
}

impl<A, B, C, D, E, F> Join for (IO<A>, IO<B>, IO<C>, IO<D>, IO<E>, IO<F>) {
    type Output = IO<(A, B, C, D, E, F)>;

    fn join(self) -> (r: IO<(A, B, C, D, E, F)>)
        ensures
            r@ == (self.0@, self.1@, self.2@, self.3@, self.4@, self.5@),
    {
        IO((self.0.0, self.1.0, self.2.0, self.3.0, self.4.0, self.5.0))
    }
}

} // verus!
