pub mod flag;
pub mod lifecycle;
pub mod page;
pub mod serial;
pub mod settings;
pub mod task;
pub mod tool;
pub mod worker;
