//! A guestbook core: attachment classification and naming, the accumulation
//! of a submitted form, the message repository and the listing view model.

pub mod text;
pub mod attachment;
pub mod board;
pub mod error;
pub mod form;
pub mod listing;
