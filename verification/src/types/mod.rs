pub mod playlist;
pub mod track;
