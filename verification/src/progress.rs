pub mod bar;
