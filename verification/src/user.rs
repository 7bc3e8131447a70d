pub mod list;
pub mod sign_out;
