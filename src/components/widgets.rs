pub mod custom_table;
