//! Retargets code written against the typed saga façade `typed-redux-saga/macro` to the
//! effect runtime `redux-saga/effects`: façade imports get the runtime's module specifier,
//! and each delegating `yield* f(..)` whose callee `f` a façade import binds becomes a
//! plain `yield f(..)`.
//!
//! - `ast`: the library's own model of the syntax the transform reads, with views.
//! - `rules`: what the transform does, as spec functions over those views.
//! - `names`: the set of effect names a module imports from the façade.
//! - `transform`: the executable transform, proved against `rules`.
//! - `laws`: properties of the transform, proved.

use vstd::prelude::*;

pub mod ast;
pub mod laws;
pub mod names;
pub mod rules;
pub mod transform;

verus! {

} // verus!
