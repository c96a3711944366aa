pub mod download_video;
pub mod imagine;
pub mod moderation;
pub mod remove_role;
pub mod timeout;
