//! Typed search descriptors for a fan-fiction archive, the query strings they
//! render to, and the extraction of work records from a results page.
pub mod dom;
pub mod models;
pub mod parse;
pub mod query;
pub mod text;

pub use dom::Document;
pub use models::{AO3Work, WorkDate};
pub use parse::{parse_search, parse_search_each, Landmark, ParsingError};
pub use query::{
    AO3QueryBuilder, ArchiveWarning, Category, CompletionStatus, CrossoverStatus, DateRange, Field,
    MultiSelect, MultiString, NumericalValueRange, Period, QueryValue, Rating, SortBy, SortDirection,
};
