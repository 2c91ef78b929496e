//! Account requests of a link-sharing server: logging in, settings, passwords, bans, mentions.
//!
//! A request alternates between decisions and work that only the server around it can do: reading
//! and writing its database, sending mail, signing tokens. The decisions stand here, as machines.
//! [`machine::Perform::perform`] takes the request and answers with the first piece of work;
//! [`machine::Resume::resume`] takes the outcome of that work and answers with the next one, until
//! the request is answered.

pub mod add_admin;
pub mod ban_person;
pub mod block_person;
pub mod challenge;
pub mod change_password;
pub mod clock;
pub mod counts;
pub mod effect;
pub mod error;
pub mod get_captcha;
pub mod login;
pub mod machine;
pub mod mark_all_as_read;
pub mod mentions;
pub mod model;
pub mod password;
pub mod password_reset;
pub mod replies;
pub mod run;
pub mod save_user_settings;
pub mod session;
pub mod text;
pub mod verify_email;
