//! The property panel of a scene editor: which widgets show which property of
//! the selected scene node, what the panel sends its widgets to show a node,
//! and which scene command a user's edit in the panel asks for.

pub mod binding;
pub mod handle;
pub mod layout;
pub mod message;
pub mod sidebar;
