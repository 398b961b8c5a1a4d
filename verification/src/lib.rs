//! Core of a terminal music player: the play queue, the panes, the key map and the parsing of what
//! the music services answer.
pub mod account;
pub mod adjust;
pub mod cache;
pub mod catalog;
pub mod client;
pub mod cloud;
pub mod config;
pub mod control;
pub mod download;
pub mod engine;
pub mod error;
pub mod event;
pub mod fetch;
pub mod input;
pub mod json;
pub mod keymap;
pub mod levels;
pub mod loading;
pub mod logger;
pub mod login;
pub mod lyric;
pub mod menu;
pub mod model;
pub mod mpris;
pub mod navigate;
pub mod netease;
pub mod order;
pub mod outcome;
pub mod panes;
pub mod playing;
pub mod promises;
pub mod qqmusic;
pub mod queue;
pub mod queueing;
pub mod results;
pub mod services;
pub mod session;
pub mod settings;
pub mod source;
pub mod state;
pub mod tab;
pub mod text;
pub mod update;
