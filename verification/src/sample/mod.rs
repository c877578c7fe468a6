pub mod fileloader;
