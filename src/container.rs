//! A server that runs containers on a shared engine.

use std::rc::Rc;
use vstd::prelude::*;

verus! {

/// A container engine: it runs images.
pub trait Engine {
    /// Run a container from `image`.
    fn run(&self, image: &str) -> Result<(), String>;
}

/// A server; it shares its engine with every server built from it.
pub struct Server<E> {
    engine: Rc<E>,
}

impl<E: Default> Default for Server<E> {
    /// A server on the engine's default instance.
    fn default() -> (r: Server<E>)
        ensures
            E::default.ensures((), r.engine()),
    {
        Server { engine: Rc::new(E::default()) }
    }
}

impl<E> Server<E> {
    /// The engine the server runs containers on.
    pub closed spec fn engine(&self) -> E {
        *self.engine
    }

    /// A server on the default engine.
    pub fn new() -> (r: Server<E>)
        where
            E: Default,
        ensures
            E::default.ensures((), r.engine()),
    {
        Self::default()
    }

    /// Override the engine.
    pub fn init_engine(&mut self, engine: Rc<E>) -> (r: &mut Server<E>)
        ensures
            r.engine() == *engine,
            *final(self) == *final(r),
    {
        self.engine = engine;
        self
    }

    /// A server that shares this server's engine.
    pub fn build(&self) -> (r: Server<E>)
        ensures
            r.engine() == self.engine(),
    {
        Server { engine: self.engine.clone() }
    }
}

} // verus!
