//! Babblebot: a Twitch chat bot's decision logic.
pub mod text;
pub mod types;
pub mod action;
pub mod commands;
pub mod schedule;
pub mod irc;
pub mod handler;
pub mod pattern;
pub mod templates;
pub mod ranking;
pub mod vars;
pub mod moderation;
pub mod jobs;
pub mod web;
pub mod listeners;
pub mod clock;
pub mod requests;
pub mod twitch;
pub mod logs;
pub mod agent;
pub mod store;
pub mod endpoints;
