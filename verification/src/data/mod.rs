pub mod basics;
