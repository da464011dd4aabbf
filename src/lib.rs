//! Verified core of a chat bot that answers slash commands with paginated
//! embed replies: the paginator's state machine and the small text rules
//! that the commands apply to the data they fetch.
pub mod animethemes;
pub mod i18n;
pub mod interaction;
pub mod jisho;
pub mod paginator;
pub mod paginator_laws;
pub mod saucenao;
pub mod stablediffusion;
pub mod text;
pub mod timestamp;
pub mod tracemoe;
pub mod yandex;
