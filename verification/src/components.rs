//! Display components: the data each view renders from.

pub mod filelist;

pub use filelist::FileList;
