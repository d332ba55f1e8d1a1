pub mod newsletters;
