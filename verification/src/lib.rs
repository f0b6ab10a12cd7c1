pub mod launch;
pub mod paths;
pub mod root;
pub mod scan;
pub mod select;
pub mod text;
