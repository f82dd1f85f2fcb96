//! Core rules of the Battle Cats Complete desktop toolkit: the decisions behind its
//! navigation, popups, update checks, file watching and the text it shows, kept apart
//! from the window system so that each can be stated and checked.

pub mod autosave;
pub mod battle;
pub mod cat;
pub mod combos;
pub mod config;
pub mod feedback;
pub mod files;
pub mod home;
pub mod init_errors;
pub mod lifecycle;
pub mod lineup;
pub mod manage;
pub mod logging;
pub mod mining;
pub mod navigation;
pub mod orbs;
pub mod reload;
pub mod replay;
pub mod roster;
pub mod sandbox;
pub mod seqs;
pub mod settings;
pub mod setup;
pub mod sheets;
pub mod stage_text;
pub mod text;
pub mod theme;
pub mod updater;
pub mod watcher;
