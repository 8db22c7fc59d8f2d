//! Four verified evaluators for the Tarai (Takeuchi) function, a synthetic
//! recursive benchmark over three signed integers. Each evaluator embodies a
//! different evaluation strategy over the same recursive definition: naive
//! eager recursion, memoized recursion, and two call-by-need variants (one
//! over a caching thunk forced on demand, one over an explicit deferred
//! value consumed when forced). All four are proved to return the value of
//! the same mathematical function.

pub mod lazy_closure;
pub mod lazy_enum;
pub mod memo;
pub mod model;
pub mod naive;

pub use lazy_closure::tarai_lazy_closure;
pub use lazy_enum::tarai_lazy_enum;
pub use memo::tarai_memo;
pub use model::tarai;
pub use naive::tarai_naive;
