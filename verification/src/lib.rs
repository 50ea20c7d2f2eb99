//! Core logic of a Bilibili ticket helper: the `ctoken` anti-bot token that
//! accompanies order requests, and the decisions taken by the project-detail
//! window (which screening and ticket type the user picked, what choosing and
//! closing record, how statuses, labels and timestamps read).

pub mod ctoken;
pub mod encoding;
pub mod screen_info;
pub mod text;
