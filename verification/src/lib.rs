//! Neta's terminal client: the decisions behind its panes, tabs and machines.

pub mod app;
pub mod archive;
pub mod asking;
pub mod canvas;
pub mod clipboard;
pub mod connect;
pub mod diagnostics;
pub mod digest;
pub mod drawing;
pub mod error;
pub mod export;
pub mod exporting;
pub mod frames;
pub mod geometry;
pub mod handling;
pub mod host_table;
pub mod hosts;
pub mod input;
pub mod isolation;
pub mod json;
pub mod keeping;
pub mod keys;
pub mod labels;
pub mod machines;
pub mod moving;
pub mod navigation;
pub mod node;
pub mod opening;
pub mod options;
pub mod order;
pub mod panes;
pub mod paths;
pub mod picker;
pub mod pointer;
pub mod popups;
pub mod presentations;
pub mod process;
pub mod progress;
pub mod protocol;
pub mod reading;
pub mod registry;
pub mod remote;
pub mod requests;
pub mod roster;
pub mod rows;
pub mod screen;
pub mod seqs;
pub mod sessions;
pub mod sets;
pub mod sheet;
pub mod shell;
pub mod showing;
pub mod sidebar;
pub mod spine;
pub mod start;
pub mod strip;
pub mod table;
pub mod tabs;
pub mod targets;
pub mod text;
pub mod titles;
pub mod tokens;
pub mod transcripts;
pub mod wiring;
pub mod words;
pub mod working;
pub mod workspaces;
