pub mod padding;
