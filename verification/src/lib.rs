//! Verified decision logic of a SpaceEngine star-browser hunter: volatiles
//! class names, the classification of a selected planet into rare finds, the
//! label written to the log, galaxy code generation, GUI click coordinates,
//! star-browser polling and the text handling around SpaceEngine's own log.

pub mod body;
pub mod galaxy;
pub mod gui;
pub mod label;
pub mod layout;
pub mod logfile;
pub mod text;
pub mod volatiles;
