pub mod layout;
pub mod path;
pub mod script;
pub mod supervisor;
