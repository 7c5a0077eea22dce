//! A terminal chat client's core: the text editor model, the wrapping and
//! cursor geometry of its viewports, the focus and session bookkeeping of the
//! application model, and the update function that turns input events into
//! state changes and side-effect commands.
pub mod text;
pub mod unicode;
pub mod paragraph;
pub mod layout;
pub mod scroll;
pub mod area;
pub mod editor_viewport;
pub mod focus;
pub mod editor;
pub mod llm;
pub mod chat;
pub mod styled_line;
pub mod style;
pub mod messages_viewport;
pub mod markdown;
pub mod messages;
pub mod session;
pub mod session_manager;
pub mod setting_manager;
pub mod config;
pub mod model;
pub mod protocol;
pub mod openai;
pub mod worker;
pub mod provider;
pub mod view;
pub mod update;
