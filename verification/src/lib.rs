pub mod data;
pub mod entity;
pub mod hierarchy;
pub mod lens;
pub mod lookup;
pub mod registry;
pub mod store;
pub mod store_table;
pub mod table;
pub mod uuid;

pub use data::Data;
pub use entity::Entity;
pub use hierarchy::{Hierarchy, HierarchyError};
pub use lens::{Index, Lens, Step, Then, Whole};
pub use registry::{Keyed, ModelData, ModelRegistry};
pub use store::{BasicStore, Store};
pub use store_table::StoreTable;
pub use table::{ItemPtr, Table};
pub use uuid::{next_uuid, StoreId, UuidGenerator};
