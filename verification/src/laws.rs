//! What the operations of the library are for, stated of each as a whole: what
//! goes out for what came in, over every input.
pub mod access;
pub mod calls;
pub mod commands;
pub mod drawing;
pub mod interface;
pub mod printing;
pub mod remotes;
pub mod repos;
pub mod search;
pub mod words;
