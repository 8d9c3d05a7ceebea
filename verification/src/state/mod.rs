pub mod class;
pub mod record;
pub mod record_delegate;

pub use class::{Class, IS_PERMISSIONED_OFFSET};
pub use record::{OwnerType, Record, CLASS_OFFSET, IS_FROZEN_OFFSET, OWNER_OFFSET, SEED_OFFSET};
pub use record_delegate::RecordAuthorityDelegate;
