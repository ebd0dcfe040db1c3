pub mod avcc;
pub mod commands;
pub mod config;
pub mod downloader;
pub mod fetch;
pub mod fps;
pub mod output;
pub mod playlist;
pub mod text;
pub mod urls;
