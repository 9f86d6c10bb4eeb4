pub mod app;
pub mod args;
pub mod decode;
pub mod table_list;
pub mod table_page;
pub mod table_view;
