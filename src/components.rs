pub mod file_explorer;
