//! Backend commands of a small desktop shell for presentation files: a
//! greeting, the choice of a file through a native dialog, and the handing
//! over of a file's bytes.

pub mod greeting;
pub mod picker;
pub mod reader;
