//! Editor logic of the user interface: tools, lanes, key names and the
//! explorer's catalogue.
pub mod explorer;
pub mod piano_roll;
pub mod playlist;
