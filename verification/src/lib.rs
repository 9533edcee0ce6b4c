//! A typed query-construction layer: fluent builders accumulate filter,
//! ordering, cursor, pagination and relation-inclusion parameters for a
//! read-many query and fold them into one generic nested tree of named
//! arguments and child selections, ready to be handed to an external
//! query-execution engine.

pub mod actions;
pub mod batch;
pub mod inclusion;
pub mod merge;
pub mod params;
pub mod queries;
pub mod select;
pub mod selection;
pub mod value;
pub mod wheres;

pub use actions::{ModelAction, ModelActionType, ModelActions, ModelQueryType};
pub use batch::BatchQuery;
pub use merge::merge_fields;
pub use queries::find_many::{FindMany, ManyArgs};
pub use selection::{Operation, Selection};
pub use value::Value;
pub use wheres::{SerializedWhereInput, WhereInput};
