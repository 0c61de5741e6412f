use vstd::prelude::*;

pub mod detect;
pub mod text;
pub mod translations;

pub use detect::get_locale_from_system;
pub use translations::TrayTranslations;
