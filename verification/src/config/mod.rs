pub mod clouds;
