//! Interactive selection and rating of an artist's releases.

pub mod app;
pub mod musicbrainz;
pub mod rating;
pub mod screen;
pub mod sections;
pub mod text;
pub mod ui;
pub mod utils;
