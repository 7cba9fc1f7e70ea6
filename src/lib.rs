//! Runtime values and extension points of a filter-expression engine: a
//! copy-on-write byte string, substring-search strategies for compiled
//! predicates, and the built-in list matcher kinds.

pub mod bytes;
pub mod list_matcher;
pub mod searcher;

pub use crate::bytes::{Bytes, WireForm};
pub use crate::searcher::{EmptySearcher, MemmemSearcher, Searcher};
pub use crate::list_matcher::{
    AlwaysList, AlwaysListMatcher, AnyListMatcher, AsAny, DynPartialEq, ListDefinition,
    ListMatcher, NeverList, NeverListMatcher,
};
