pub mod field;
pub mod pic32mx1x4;
pub mod pic32mx2xx;
pub mod pic32mx47x;
pub mod pic32mzef;
