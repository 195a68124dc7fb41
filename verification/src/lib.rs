//! A client for the event queues of a chat service, without the network.
//!
//! A site of the service is watched through an event queue: the client
//! registers a queue, polls it for events, moves a cursor past the events
//! that it has seen, and registers a fresh queue when the service has
//! dropped the old one.  Every message that arrives is shown on the console,
//! and a message that mentions the user or holds one of the user's alert
//! words raises a notification.
//!
//! This crate decides all of that and does none of the sending or showing.
//! A [`watcher::SiteWatcher`] says which request to send next, is handed
//! what came of it, and says what to show; a [`supervisor::Supervisor`]
//! keeps one watcher for each site.  Whoever owns the connection and the
//! screen carries the steps out, and says how far the reader's time zone is
//! ahead of Greenwich when a message is to be shown.
//!
//! - [`site`]: a site, and the requests that are sent to it.
//! - [`json`] and [`decode`]: how the configuration and the bodies of the
//!   answers are read.
//! - [`api`]: what an answer is, and how an exchange can fail.
//! - [`message`] and [`event`]: what the service delivers.
//! - [`queue`]: registration, polling and the cursor of one queue.
//! - [`dispatch`]: what is shown for an event.
//! - [`watcher`] and [`supervisor`]: the state machines.
//! - [`text`]: numbers and columns in text.

pub mod api;
pub mod decode;
pub mod dispatch;
pub mod event;
pub mod json;
pub mod message;
pub mod queue;
pub mod site;
pub mod supervisor;
pub mod text;
pub mod watcher;
